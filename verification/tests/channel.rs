use hear_one_device::channel::{dist_dir, missing_dist_message, open_room, receiver_url, SERVER_PORT};

#[test]
fn dist_dir_is_beside_the_manifest_folder() {
    let d = dist_dir("/home/user/HearOneDevice/src-tauri").unwrap();
    assert_eq!(
        std::path::PathBuf::from(d),
        std::path::PathBuf::from("/home/user/HearOneDevice/dist")
    );
}

#[test]
fn dist_dir_of_relative_folder() {
    assert_eq!(dist_dir("src-tauri"), Some("dist".to_string()));
}

#[test]
fn dist_dir_without_parent() {
    assert_eq!(dist_dir(""), None);
    assert_eq!(dist_dir("/"), None);
}

#[test]
fn receiver_url_names_host_and_port() {
    assert_eq!(receiver_url("192.168.0.12"), "http://192.168.0.12:6767/receiver.html");
    assert_eq!(SERVER_PORT, 6767);
}

#[test]
fn open_room_answers_with_receiver_url() {
    assert_eq!(
        open_room("10.0.0.5", "/x/dist", true),
        Ok("http://10.0.0.5:6767/receiver.html".to_string())
    );
}

#[test]
fn open_room_without_web_files_fails() {
    let expected =
        "'dist' 폴더를 찾을 수 없습니다 (/x/dist). 먼저 'npm run build'를 실행하세요.".to_string();
    assert_eq!(open_room("10.0.0.5", "/x/dist", false), Err(expected.clone()));
    assert_eq!(missing_dist_message("/x/dist"), expected);
}

#[test]
fn dist_dir_of_dotted_and_unicode_folders() {
    let d = dist_dir("/home/john.doe/프로젝트 A/src-tauri").unwrap();
    assert!(d == "/home/john.doe/프로젝트 A/dist" || d == "/home/john.doe/프로젝트 A\\dist");
    assert_eq!(dist_dir("my.app"), Some("dist".to_string()));
}
