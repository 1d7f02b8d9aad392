//! The room that the receivers join: a web server on port 6767 that serves
//! the receiver page from the `dist` folder of the project.
use vstd::prelude::*;
use vstd::string::*;
use crate::text::{decimal, push_decimal, lemma_decimal_6767};

verus! {

/// The TCP port that the room listens on.
pub const SERVER_PORT: u16 = 6767;

/// A character of a plain file name: anything but the separators `/` and
/// `\\`, and `:`, which Windows reads as a drive.
pub open spec fn is_plain_char(c: char) -> bool {
    c != '/' && c != '\\' && c != ':'
}

/// A plain file name: not empty, of plain characters only, and not one of
/// the special names `.` and `..`.
pub open spec fn is_plain_name(s: Seq<char>) -> bool {
    &&& s.len() > 0
    &&& forall|i: int| 0 <= i < s.len() ==> is_plain_char(#[trigger] s[i])
    &&& s != seq!['.']
    &&& s != seq!['.', '.']
}

/// A plain folder path: plain names separated by single `/`, possibly
/// starting with `/`, not empty and not ending with `/`. On every platform
/// such a path has no drive, no share and no `.` or `..` component.
pub open spec fn is_plain_path(s: Seq<char>) -> bool {
    &&& s.len() > 0
    &&& s.last() != '/'
    &&& forall|i: int| 0 <= i < s.len() ==> is_plain_char(#[trigger] s[i]) || s[i] == '/'
    &&& forall|i: int| 0 <= i < s.len() - 1 ==> !(#[trigger] s[i] == '/' && s[i + 1] == '/')
    &&& forall|i: int|
        0 <= i < s.len() && #[trigger] s[i] == '.' && (i == 0 || s[i - 1] == '/') ==> {
            &&& !(i + 1 == s.len() || s[i + 1] == '/')
            &&& !(i + 1 < s.len() && s[i + 1] == '.' && (i + 2 == s.len() || s[i + 2] == '/'))
        }
}

/// The index of the last `/` in `s`, or -1 when there is none.
pub open spec fn last_slash(s: Seq<char>) -> int
    decreases s.len(),
{
    if s.len() == 0 {
        -1
    } else if s.last() == '/' {
        s.len() - 1
    } else {
        last_slash(s.drop_last())
    }
}

proof fn lemma_last_slash_bounds(s: Seq<char>)
    ensures
        -1 <= last_slash(s) < s.len(),
    decreases s.len(),
{
    if s.len() > 0 && s.last() != '/' {
        lemma_last_slash_bounds(s.drop_last());
    }
}

/// `path` is a plain folder path, `/`, and a plain name: for instance
/// `/home/john.doe/HearOneDevice/src-tauri`.
pub open spec fn is_plain_split(path: Seq<char>) -> bool {
    let k: int = last_slash(path);
    &&& k > 0
    &&& is_plain_path(path.subrange(0, k))
    &&& is_plain_name(path.subrange(k + 1, path.len() as int))
}

/// Calls `std::path::Path::parent` on `path`. Its documentation says that it
/// returns the path without its final component, `Some("")` for a relative
/// path of one component, and nothing for the empty path or a path that ends
/// in a root, such as `/`. So the parent of a plain name is empty, and the
/// parent of a plain folder path, `/` and a plain name is that folder path.
/// For other paths the result depends on the platform's separators and
/// prefixes and is left unsaid.
///
/// On every platform the parent is the start of the path: a shorter prefix.
#[verifier::external_body]
fn parent_dir(path: &str) -> (r: Option<String>)
    ensures
        r matches Some(q) ==> q@.len() < path@.len() && q@ == path@.subrange(0, q@.len() as int),
        path@.len() == 0 ==> r is None,
        path@ == seq!['/'] ==> r is None,
        is_plain_name(path@) ==> r is Some,
        r matches Some(q) ==> (is_plain_name(path@) ==> q@.len() == 0),
        is_plain_split(path@) ==> r is Some,
        r matches Some(q) ==> (is_plain_split(path@) ==> q@ == path@.subrange(0, last_slash(path@))),
{
    match std::path::Path::new(path).parent() {
        Some(p) => Some(p.to_string_lossy().into_owned()),
        None => None,
    }
}

/// Calls `std::path::Path::join`, which extends `base` with the relative
/// plain name `child`: the result ends with `child`; the empty path extended
/// is `child` itself; a plain folder path extended is that path, one
/// separator (`/` or `\\` as the platform has it) and `child`. On other
/// bases, which the platform may normalize, the rest is left unsaid.
///
/// Its documentation names the cases in which it does more than extend the
/// base: an absolute child (a plain name is not), and on Windows a child with
/// a root or a prefix (a plain name has neither), or a base with a verbatim
/// prefix, which starts with two separators. On any other base the result
/// is the base, at most one separator, and the child.
#[verifier::external_body]
fn join_path(base: &str, child: &str) -> (r: String)
    requires
        is_plain_name(child@),
    ensures
        !starts_with_two_separators(base@) ==> extends_with(base@, child@, r@),
        r@.len() >= child@.len(),
        r@.subrange(r@.len() - child@.len(), r@.len() as int) == child@,
        base@.len() == 0 ==> r@ == child@,
        is_plain_path(base@) ==> r@.len() == base@.len() + 1 + child@.len(),
        is_plain_path(base@) ==> r@.subrange(0, base@.len() as int) == base@,
        is_plain_path(base@) ==> (r@[base@.len() as int] == '/' || r@[base@.len() as int] == '\\'),
{
    std::path::Path::new(base).join(child).to_string_lossy().into_owned()
}

/// A separator on some platform: `/`, or `\\` on Windows.
pub open spec fn is_separator(c: char) -> bool {
    c == '/' || c == '\\'
}

/// `s` starts with two separators, as shares and verbatim paths of Windows
/// do.
pub open spec fn starts_with_two_separators(s: Seq<char>) -> bool {
    s.len() >= 2 && is_separator(s[0]) && is_separator(s[1])
}

/// `r` is `base` extended with `child`: the two, with nothing or a single
/// separator between them.
pub open spec fn extends_with(base: Seq<char>, child: Seq<char>, r: Seq<char>) -> bool {
    ||| r == base + child
    ||| {
        &&& r.len() == base.len() + 1 + child.len()
        &&& r.subrange(0, base.len() as int) == base
        &&& is_separator(r[base.len() as int])
        &&& r.subrange(base.len() + 1int, r.len() as int) == child
    }
}

/// `dist` is `dist` put under a shorter prefix of the path `manifest` (the
/// prefix, at most one separator, `dist`).
pub open spec fn is_dist_under_prefix(manifest: Seq<char>, dist: Seq<char>) -> bool {
    exists|k: int| 0 <= k < manifest.len() && #[trigger] extends_with(manifest.subrange(0, k), "dist"@, dist)
}

/// `path` names a folder called `dist`: it ends with `dist`.
pub open spec fn ends_with_dist(path: Seq<char>) -> bool {
    path.len() >= 4 && path.subrange(path.len() - 4, path.len() as int) == "dist"@
}

/// `dist` is the folder `dist` in the parent of the plain path `manifest`:
/// that parent, one separator, and `dist`.
pub open spec fn is_dist_of_plain(manifest: Seq<char>, dist: Seq<char>) -> bool {
    let k: int = last_slash(manifest);
    &&& dist.len() == k + 5
    &&& dist.subrange(0, k) == manifest.subrange(0, k)
    &&& (dist[k] == '/' || dist[k] == '\\')
    &&& dist.subrange(k + 1, k + 5) == "dist"@
}

/// The folder that holds the built web files: `dist` beside the folder of
/// the application's manifest, that is in that folder's parent.
///
/// A manifest folder without a parent (the empty path, `/`, or any path that
/// ends in a root) has no such folder. The application cannot serve its
/// pages then and stops; this function does not panic there but answers
/// `None`, and leaves stopping to its caller. Which paths end in a root
/// depends on the platform's path rules, so beyond the empty path and `/`
/// the contract does not say when `None` comes; for a plain name, and for a
/// plain folder path followed by a plain name (any characters but `/`, `\\`
/// and `:`, no `.` or `..` component), it says exactly what comes.
pub fn dist_dir(manifest_dir: &str) -> (r: Option<String>)
    ensures
        manifest_dir@.len() == 0 ==> r is None,
        manifest_dir@ == seq!['/'] ==> r is None,
        r matches Some(d) ==> ends_with_dist(d@),
        r matches Some(d) ==> (!starts_with_two_separators(manifest_dir@) ==> is_dist_under_prefix(manifest_dir@, d@)),
        is_plain_name(manifest_dir@) ==> (r matches Some(d) && d@ == "dist"@),
        is_plain_split(manifest_dir@) ==> (r matches Some(d) && is_dist_of_plain(manifest_dir@, d@)),
{
    proof {
        reveal_strlit("dist");
    }
    match parent_dir(manifest_dir) {
        Some(parent) => {
            assert("dist"@.len() == 4);
            assert(forall|i: int| 0 <= i < 4 ==> is_plain_char(#[trigger] "dist"@[i])) by {
                assert("dist"@[0] == 'd' && "dist"@[1] == 'i' && "dist"@[2] == 's' && "dist"@[3] == 't');
            }
            assert("dist"@ != seq!['.']);
            assert("dist"@ != seq!['.', '.']);
            let d = join_path(parent.as_str(), "dist");
            proof {
                if !starts_with_two_separators(manifest_dir@) {
                    let k: int = parent@.len() as int;
                    if parent@.len() >= 2 {
                        assert(parent@[0] == manifest_dir@[0] && parent@[1] == manifest_dir@[1]);
                    }
                    assert(extends_with(manifest_dir@.subrange(0, k), "dist"@, d@));
                    assert(is_dist_under_prefix(manifest_dir@, d@));
                }
            }
            proof {
                if is_plain_split(manifest_dir@) {
                    lemma_last_slash_bounds(manifest_dir@);
                    let k: int = last_slash(manifest_dir@);
                    assert(parent@.len() == k);
                    assert(is_plain_path(parent@));
                    assert(d@.subrange(k + 1, k + 5) == d@.subrange(d@.len() - 4, d@.len() as int));
                }
            }
            Some(d)
        },
        None => None,
    }
}

/// The address of the receiver page of a room hosted at `ip`.
pub open spec fn receiver_url_text(ip: Seq<char>) -> Seq<char> {
    "http://"@ + ip + ":"@ + decimal(SERVER_PORT as nat) + "/receiver.html"@
}

/// Whatever the host's address, the receiver page is asked of that host on
/// port 6767: the address is `http://`, the host, then `:6767/receiver.html`.
pub proof fn lemma_receiver_url_names_port(ip: Seq<char>)
    ensures
        receiver_url_text(ip) == "http://"@ + ip + ":6767/receiver.html"@,
{
    reveal_strlit(":");
    reveal_strlit("/receiver.html");
    reveal_strlit(":6767/receiver.html");
    lemma_decimal_6767();
    assert(":"@ + decimal(SERVER_PORT as nat) + "/receiver.html"@ =~= ":6767/receiver.html"@);
    assert(receiver_url_text(ip) =~= "http://"@ + ip + ":6767/receiver.html"@);
}

/// The address of the receiver page of a room hosted at `ip` (the host's
/// address as text).
pub fn receiver_url(ip: &str) -> (r: String)
    ensures
        r@ == receiver_url_text(ip@),
        r@ == "http://"@ + ip@ + ":6767/receiver.html"@,
{
    proof {
        lemma_receiver_url_names_port(ip@);
    }
    let mut url = String::from_str("http://");
    url.append(ip);
    url.append(":");
    push_decimal(&mut url, SERVER_PORT);
    url.append("/receiver.html");
    url
}

/// The message when the web files have not been built.
pub open spec fn missing_dist_text(dist_path: Seq<char>) -> Seq<char> {
    "'dist' 폴더를 찾을 수 없습니다 ("@ + dist_path + "). 먼저 'npm run build'를 실행하세요."@
}

/// The message when the web files at `dist_path` have not been built.
pub fn missing_dist_message(dist_path: &str) -> (r: String)
    ensures
        r@ == missing_dist_text(dist_path@),
{
    let mut m = String::from_str("'dist' 폴더를 찾을 수 없습니다 (");
    m.append(dist_path);
    m.append("). 먼저 'npm run build'를 실행하세요.");
    m
}

/// Opens the room of a host at `ip`: it opens only when the web files at
/// `dist_path` exist, and then answers with the address of the receiver page;
/// otherwise it fails with a message that names the folder and says how to
/// build it.
pub fn open_room(ip: &str, dist_path: &str, dist_exists: bool) -> (r: Result<String, String>)
    ensures
        dist_exists ==> (r matches Ok(url) && url@ == receiver_url_text(ip@)),
        dist_exists ==> (r matches Ok(url) && url@ == "http://"@ + ip@ + ":6767/receiver.html"@),
        !dist_exists ==> (r matches Err(m) && m@ == missing_dist_text(dist_path@)),
{
    if !dist_exists {
        return Err(missing_dist_message(dist_path));
    }
    Ok(receiver_url(ip))
}

} // verus!
