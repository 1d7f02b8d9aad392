use hear_one_device::rtc::{
    answer_url, audio_track_spec, connection_status, error_status, ice_config,
    ice_gathering_done, local_description_json, offer_url, parse_session_description, PeerConnectionState, RtcState, SdpType,
    SessionDescription, SignalCtx,
};

#[test]
fn reported_connection_states() {
    assert_eq!(connection_status(PeerConnectionState::Connected), Some("connected"));
    assert_eq!(connection_status(PeerConnectionState::Disconnected), Some("disconnected"));
    assert_eq!(connection_status(PeerConnectionState::Failed), Some("failed"));
    assert_eq!(connection_status(PeerConnectionState::Closed), Some("closed"));
    assert_eq!(connection_status(PeerConnectionState::New), None);
    assert_eq!(connection_status(PeerConnectionState::Connecting), None);
    assert_eq!(connection_status(PeerConnectionState::Unspecified), None);
}

#[test]
fn error_status_prefixes_the_detail() {
    assert_eq!(error_status("bad sdp"), "error: bad sdp");
    assert_eq!(error_status(""), "error: ");
}

#[test]
fn signaling_urls() {
    assert_eq!(offer_url("192.168.1.3"), "http://192.168.1.3:6767/offer");
    assert_eq!(answer_url("192.168.1.3"), "http://192.168.1.3:6767/answer");
}

#[test]
fn ice_uses_google_stun() {
    assert_eq!(ice_config(), vec!["stun:stun.l.google.com:19302".to_string()]);
}

#[test]
fn host_track_is_stereo_opus() {
    let t = audio_track_spec();
    assert_eq!(t.mime_type, "audio/opus");
    assert_eq!(t.clock_rate, 48000);
    assert_eq!(t.channels, 2);
    assert_eq!(t.sdp_fmtp_line, "");
    assert_eq!(t.track_id, "audio");
    assert_eq!(t.stream_id, "share-your-sounds");
}

#[test]
fn gathering_ends_without_candidate() {
    assert!(ice_gathering_done::<u8>(&None));
    assert!(!ice_gathering_done(&Some(1u8)));
}

use webrtc::peer_connection::sdp::sdp_type::RTCSdpType;
use webrtc::peer_connection::sdp::session_description::RTCSessionDescription;

#[test]
fn missing_local_description_fails() {
    assert_eq!(local_description_json(None), Err("local description 없음".to_string()));
}

#[test]
fn local_description_is_written_as_webrtc_json() {
    let json = local_description_json(Some(SessionDescription {
        sdp_type: SdpType::Offer,
        sdp: "v=0".to_string(),
    }))
    .unwrap();
    let mut d = RTCSessionDescription::default();
    d.sdp_type = RTCSdpType::Offer;
    d.sdp = "v=0".to_string();
    assert_eq!(json, serde_json::to_string(&d).unwrap());
    assert_eq!(json, r#"{"type":"offer","sdp":"v=0"}"#);
}

#[test]
fn written_description_reads_back() {
    for t in [SdpType::Offer, SdpType::Pranswer, SdpType::Answer, SdpType::Rollback] {
        let d = SessionDescription { sdp_type: t, sdp: "v=0\r\nm=audio".to_string() };
        let json = local_description_json(Some(d.clone())).unwrap();
        assert_eq!(parse_session_description(&json), Ok(d));
    }
}

#[test]
fn answer_json_is_read() {
    let d = parse_session_description(r#"{"type":"answer","sdp":"v=0"}"#).unwrap();
    assert_eq!(d, SessionDescription { sdp_type: SdpType::Answer, sdp: "v=0".to_string() });
}

#[test]
fn malformed_answer_json_is_refused() {
    for text in ["not json", r#"{"type":"answer"}"#, r#"{"type":"bogus","sdp":""}"#] {
        let err = parse_session_description(text).unwrap_err();
        let expected = serde_json::from_str::<RTCSessionDescription>(text).unwrap_err().to_string();
        assert_eq!(err, expected);
    }
}

#[test]
fn offer_is_handed_out_unchanged() {
    let mut ctx = SignalCtx::new("v=0 offer".to_string(), 1u8);
    assert_eq!(ctx.handle_get_offer(), "v=0 offer");
    let _ = ctx.handle_post_answer("answer".to_string());
    assert_eq!(ctx.handle_get_offer(), "v=0 offer");
}

#[test]
fn only_first_answer_is_forwarded() {
    let mut ctx = SignalCtx::new("offer".to_string(), 42u8);
    let (first, reply) = ctx.handle_post_answer("first".to_string());
    assert_eq!(reply, "ok");
    assert_eq!(first, Some((42u8, "first".to_string())));
    let (second, reply) = ctx.handle_post_answer("second".to_string());
    assert_eq!(reply, "ok");
    assert_eq!(second, None);
    let (third, _) = ctx.handle_post_answer("third".to_string());
    assert_eq!(third, None);
}

#[test]
fn cleanup_releases_task_and_session() {
    let mut state: RtcState<&str, u32> = RtcState::new();
    assert_eq!(state.cleanup(), (None, None));
    state.set_session("peer");
    state.set_server_task(9);
    assert_eq!(state.cleanup(), (Some(9), Some("peer")));
    assert!(state.session.is_none() && state.server_task.is_none());
    assert_eq!(state.cleanup(), (None, None));
}
