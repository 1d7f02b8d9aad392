//! The WebRTC session between a host and a receiver: which parameters it
//! uses, how the host's small signaling server answers, what the application
//! reports of the connection, and which resources a new session releases.
use vstd::prelude::*;
use vstd::string::*;
use crate::channel::SERVER_PORT;
use crate::text::{decimal, push_decimal, lemma_decimal_6767};
use webrtc::peer_connection::sdp::sdp_type::RTCSdpType;
use webrtc::peer_connection::sdp::session_description::RTCSessionDescription;

verus! {

/// The states of a peer connection, as WebRTC names them.
#[derive(Debug, Clone, Copy, PartialEq, Eq, Structural)]
pub enum PeerConnectionState {
    Unspecified,
    New,
    Connecting,
    Connected,
    Disconnected,
    Failed,
    Closed,
}

/// The status that the application reports for a state of the connection:
/// only the four states that matter to the user are reported.
pub open spec fn status_text(state: PeerConnectionState) -> Option<Seq<char>> {
    match state {
        PeerConnectionState::Connected => Some("connected"@),
        PeerConnectionState::Disconnected => Some("disconnected"@),
        PeerConnectionState::Failed => Some("failed"@),
        PeerConnectionState::Closed => Some("closed"@),
        _ => None,
    }
}

/// The status to report when the connection enters `state`, if any.
pub fn connection_status(state: PeerConnectionState) -> (r: Option<&'static str>)
    ensures
        r matches Some(s) ==> status_text(state) == Some(s@),
        r is None ==> status_text(state) is None,
{
    match state {
        PeerConnectionState::Connected => Some("connected"),
        PeerConnectionState::Disconnected => Some("disconnected"),
        PeerConnectionState::Failed => Some("failed"),
        PeerConnectionState::Closed => Some("closed"),
        _ => None,
    }
}

/// The status that reports an error with the text `detail`.
pub open spec fn error_status_text(detail: Seq<char>) -> Seq<char> {
    "error: "@ + detail
}

/// The status that reports an error with the text `detail`.
pub fn error_status(detail: &str) -> (r: String)
    ensures
        r@ == error_status_text(detail@),
{
    let mut s = String::from_str("error: ");
    s.append(detail);
    s
}

/// The address at `host` under which the signaling server answers `path`.
pub open spec fn signal_url_text(host: Seq<char>, path: Seq<char>) -> Seq<char> {
    "http://"@ + host + ":"@ + decimal(SERVER_PORT as nat) + path
}

fn signal_url(host: &str, path: &str) -> (r: String)
    ensures
        r@ == signal_url_text(host@, path@),
{
    let mut url = String::from_str("http://");
    url.append(host);
    url.append(":");
    push_decimal(&mut url, SERVER_PORT);
    url.append(path);
    url
}

/// Whatever the host's address, the signaling server is asked on port
/// 6767: the offer at `http://`, the host, `:6767/offer`, and the answer at
/// `http://`, the host, `:6767/answer`.
pub proof fn lemma_signal_urls_name_port(host: Seq<char>)
    ensures
        signal_url_text(host, "/offer"@) == "http://"@ + host + ":6767/offer"@,
        signal_url_text(host, "/answer"@) == "http://"@ + host + ":6767/answer"@,
{
    reveal_strlit(":");
    reveal_strlit("/offer");
    reveal_strlit("/answer");
    reveal_strlit(":6767/offer");
    reveal_strlit(":6767/answer");
    lemma_decimal_6767();
    assert(":"@ + decimal(SERVER_PORT as nat) + "/offer"@ =~= ":6767/offer"@);
    assert(":"@ + decimal(SERVER_PORT as nat) + "/answer"@ =~= ":6767/answer"@);
    assert(signal_url_text(host, "/offer"@) =~= "http://"@ + host + ":6767/offer"@);
    assert(signal_url_text(host, "/answer"@) =~= "http://"@ + host + ":6767/answer"@);
}

/// Where a receiver fetches the host's offer.
pub fn offer_url(host: &str) -> (r: String)
    ensures
        r@ == signal_url_text(host@, "/offer"@),
        r@ == "http://"@ + host@ + ":6767/offer"@,
{
    proof {
        lemma_signal_urls_name_port(host@);
    }
    signal_url(host, "/offer")
}

/// Where a receiver posts its answer to the host.
pub fn answer_url(host: &str) -> (r: String)
    ensures
        r@ == signal_url_text(host@, "/answer"@),
        r@ == "http://"@ + host@ + ":6767/answer"@,
{
    proof {
        lemma_signal_urls_name_port(host@);
    }
    signal_url(host, "/answer")
}

/// The STUN server that both sides use to find their public addresses.
pub open spec fn stun_server_text() -> Seq<char> {
    "stun:stun.l.google.com:19302"@
}

/// The ICE servers of a session: one STUN server.
pub fn ice_config() -> (urls: Vec<String>)
    ensures
        urls@.len() == 1,
        urls@[0]@ == stun_server_text(),
{
    let mut urls: Vec<String> = Vec::new();
    urls.push(String::from_str("stun:stun.l.google.com:19302"));
    urls
}

/// The audio track that a host sends: Opus, stereo, at 48000 Hz.
#[derive(Debug, PartialEq, Eq)]
pub struct AudioTrackSpec {
    pub mime_type: String,
    pub clock_rate: u32,
    pub channels: u16,
    pub sdp_fmtp_line: String,
    pub track_id: String,
    pub stream_id: String,
}

/// The host's audio track: `audio/opus`, 48000 Hz, 2 channels, no format
/// parameters, track `audio` of stream `share-your-sounds`.
pub fn audio_track_spec() -> (r: AudioTrackSpec)
    ensures
        r.mime_type@ == "audio/opus"@,
        r.clock_rate == 48000,
        r.channels == 2,
        r.sdp_fmtp_line@ == Seq::<char>::empty(),
        r.track_id@ == "audio"@,
        r.stream_id@ == "share-your-sounds"@,
{
    AudioTrackSpec {
        mime_type: String::from_str("audio/opus"),
        clock_rate: 48000,
        channels: 2,
        sdp_fmtp_line: String::new(),
        track_id: String::from_str("audio"),
        stream_id: String::from_str("share-your-sounds"),
    }
}

/// Whether an ICE candidate event ends the gathering: the end is signaled by
/// an event without a candidate.
pub fn ice_gathering_done<C>(candidate: &Option<C>) -> (r: bool)
    ensures
        r == candidate is None,
{
    candidate.is_none()
}

/// What kind of session description it is, as WebRTC names the kinds.
#[derive(Debug, Clone, Copy, PartialEq, Eq, Structural)]
pub enum SdpType {
    Unspecified,
    Offer,
    Pranswer,
    Answer,
    Rollback,
}

/// A session description as the two sides exchange it: its kind and its SDP
/// text.
#[derive(Debug, Clone, PartialEq, Eq)]
pub struct SessionDescription {
    pub sdp_type: SdpType,
    pub sdp: String,
}

/// The error type of `serde_json`.
#[verifier::external_type_specification]
#[verifier::external_body]
pub struct ExJsonError(serde_json::Error);

/// The JSON text that `serde_json::to_string` writes for a WebRTC session
/// description of kind `sdp_type` with SDP text `sdp`.
pub uninterp spec fn description_json(sdp_type: SdpType, sdp: Seq<char>) -> Seq<char>;

/// Calls `serde_json::to_string` on the WebRTC session description of the
/// given kind and SDP text. Its documentation says it fails only when a
/// `Serialize` impl fails or a map has non-string keys; the description's
/// derived impl over an enum of unit variants and a string does neither, so
/// it succeeds. The text it writes is named `description_json`.
#[verifier::external_body]
fn description_to_json(description: &SessionDescription) -> (r: Result<String, serde_json::Error>)
    ensures
        r is Ok,
        r matches Ok(t) ==> t@ == description_json(description.sdp_type, description.sdp@),
{
    let mut d = RTCSessionDescription::default();
    d.sdp_type = match description.sdp_type {
        SdpType::Unspecified => RTCSdpType::Unspecified,
        SdpType::Offer => RTCSdpType::Offer,
        SdpType::Pranswer => RTCSdpType::Pranswer,
        SdpType::Answer => RTCSdpType::Answer,
        SdpType::Rollback => RTCSdpType::Rollback,
    };
    d.sdp = description.sdp.clone();
    serde_json::to_string(&d)
}

/// What `serde_json::from_str` reads as a WebRTC session description from
/// `text`: its kind and SDP text, or the text of the error it reports.
pub uninterp spec fn description_from_text(text: Seq<char>) -> Result<(SdpType, Seq<char>), Seq<char>>;

/// A description read: its kind and SDP text.
pub open spec fn read_description(sdp_type: SdpType, sdp: Seq<char>) -> Result<(SdpType, Seq<char>), Seq<char>> {
    Ok((sdp_type, sdp))
}

/// A failed read, with the error's text.
pub open spec fn read_error(message: Seq<char>) -> Result<(SdpType, Seq<char>), Seq<char>> {
    Err(message)
}

/// Calls `serde_json::from_str` to read a WebRTC session description from
/// `text`, and hands back its kind and SDP text, or the error's text. What it
/// reads is a matter of the text alone and is named `description_from_text`.
#[verifier::external_body]
fn description_from_json(text: &str) -> (r: Result<SessionDescription, String>)
    ensures
        r matches Ok(d) ==> description_from_text(text@) == read_description(d.sdp_type, d.sdp@),
        r matches Err(m) ==> description_from_text(text@) == read_error(m@),
{
    match serde_json::from_str::<RTCSessionDescription>(text) {
        Ok(d) => Ok(SessionDescription {
            sdp_type: match d.sdp_type {
                RTCSdpType::Unspecified => SdpType::Unspecified,
                RTCSdpType::Offer => SdpType::Offer,
                RTCSdpType::Pranswer => SdpType::Pranswer,
                RTCSdpType::Answer => SdpType::Answer,
                RTCSdpType::Rollback => SdpType::Rollback,
            },
            sdp: d.sdp,
        }),
        Err(e) => Err(e.to_string()),
    }
}

/// The message when the peer connection has no local description.
pub open spec fn no_local_description_text() -> Seq<char> {
    "local description 없음"@
}

/// The local description, once gathering ended, as the JSON text that the
/// other side reads; fails with a message when there is no description.
pub fn local_description_json(description: Option<SessionDescription>) -> (r: Result<String, String>)
    ensures
        description is None ==> (r matches Err(m) && m@ == no_local_description_text()),
        description matches Some(d) ==> (r matches Ok(t) && t@ == description_json(d.sdp_type, d.sdp@)),
{
    match description {
        Some(d) => match description_to_json(&d) {
            Ok(text) => Ok(text),
            Err(e) => Err(e.to_string()),
        },
        None => Err(String::from_str("local description 없음")),
    }
}

/// Reads a session description from the JSON text that the other side sent:
/// its kind and SDP text as `serde_json` reads them, or the text of the error
/// it reports.
pub fn parse_session_description(text: &str) -> (r: Result<SessionDescription, String>)
    ensures
        r matches Ok(d) ==> description_from_text(text@) == read_description(d.sdp_type, d.sdp@),
        r matches Err(m) ==> description_from_text(text@) == read_error(m@),
{
    description_from_json(text)
}

/// One answer posted to the signaling server: the server stops waiting, and
/// the answer is forwarded only if the server was still waiting for one.
pub open spec fn answer_step(waiting: bool, body: Seq<char>) -> (bool, Option<Seq<char>>) {
    (false, if waiting { Some(body) } else { None })
}

/// The answers that reach the host when `bodies` are posted in turn to a
/// server that is `waiting` or not.
pub open spec fn answers_forwarded(waiting: bool, bodies: Seq<Seq<char>>) -> Seq<Seq<char>>
    decreases bodies.len(),
{
    if bodies.len() == 0 {
        Seq::empty()
    } else {
        let (next, forwarded) = answer_step(waiting, bodies[0]);
        let rest = answers_forwarded(next, bodies.drop_first());
        match forwarded {
            Some(b) => seq![b] + rest,
            None => rest,
        }
    }
}

/// A server that no longer waits forwards no answer.
proof fn lemma_no_answer_after_first(bodies: Seq<Seq<char>>)
    ensures
        answers_forwarded(false, bodies) == Seq::<Seq<char>>::empty(),
    decreases bodies.len(),
{
    if bodies.len() > 0 {
        lemma_no_answer_after_first(bodies.drop_first());
    }
}

/// Whatever answers are posted to the signaling server, exactly the first
/// one reaches the host if the server was waiting, and none otherwise.
pub proof fn lemma_only_first_answer_forwarded(waiting: bool, bodies: Seq<Seq<char>>)
    ensures
        answers_forwarded(waiting, bodies) == (if waiting && bodies.len() > 0 {
            seq![bodies[0]]
        } else {
            Seq::<Seq<char>>::empty()
        }),
{
    if bodies.len() > 0 {
        lemma_no_answer_after_first(bodies.drop_first());
        assert(seq![bodies[0]] + Seq::<Seq<char>>::empty() =~= seq![bodies[0]]);
    }
}

/// The state of the host's signaling server: the offer it hands out, the
/// channel to the host that takes the first answer, and, as ghost state, the
/// answers posted so far and those that reached the host.
pub struct SignalCtx<Tx> {
    offer_sdp: String,
    answer_tx: Option<Tx>,
    posted: Ghost<Seq<Seq<char>>>,
    delivered: Ghost<Seq<Seq<char>>>,
}

impl<Tx> SignalCtx<Tx> {
    /// The offer that the server hands out.
    pub closed spec fn offer(&self) -> Seq<char> {
        self.offer_sdp@
    }

    /// The channel to the host, while the server still waits for an answer.
    pub closed spec fn answer_channel(&self) -> Option<Tx> {
        self.answer_tx
    }

    /// The answers posted to the server so far, in order.
    pub closed spec fn answers_posted(&self) -> Seq<Seq<char>> {
        self.posted@
    }

    /// The answers handed on to the host so far, in order.
    pub closed spec fn answers_delivered(&self) -> Seq<Seq<char>> {
        self.delivered@
    }

    /// Whether the server still waits for an answer.
    pub open spec fn waiting(&self) -> bool {
        self.answer_channel() is Some
    }

    /// The server waits exactly until an answer was posted, and what reached
    /// the host is what the posted answers forward.
    pub closed spec fn wf(&self) -> bool {
        &&& (self.answer_tx is Some <==> self.posted@.len() == 0)
        &&& self.delivered@ == answers_forwarded(true, self.posted@)
    }

    /// A server that hands out `offer_sdp` and waits for an answer to send
    /// through `answer_tx`.
    pub fn new(offer_sdp: String, answer_tx: Tx) -> (r: SignalCtx<Tx>)
        ensures
            r.wf(),
            r.offer() == offer_sdp@,
            r.answer_channel() == Some(answer_tx),
            r.answers_posted() == Seq::<Seq<char>>::empty(),
            r.answers_delivered() == Seq::<Seq<char>>::empty(),
    {
        SignalCtx {
            offer_sdp,
            answer_tx: Some(answer_tx),
            posted: Ghost(Seq::empty()),
            delivered: Ghost(Seq::empty()),
        }
    }

    /// Answers a request for the offer: the offer itself.
    pub fn handle_get_offer(&self) -> (r: String)
        ensures
            r@ == self.offer(),
    {
        self.offer_sdp.clone()
    }

    /// Answers a posted answer: the reply is always `ok`; the first answer
    /// is handed back with the channel that takes it, and the server stops
    /// waiting; later answers are dropped. The offer does not change.
    pub fn handle_post_answer(&mut self, body: String) -> (r: (Option<(Tx, String)>, &'static str))
        requires
            old(self).wf(),
        ensures
            final(self).wf(),
            r.1@ == "ok"@,
            final(self).offer() == old(self).offer(),
            !final(self).waiting(),
            final(self).answers_posted() == old(self).answers_posted().push(body@),
            r.0 is Some <==> old(self).waiting(),
            (match r.0 {
                Some((tx, b)) => {
                    &&& old(self).answer_channel() == Some(tx)
                    &&& b@ == body@
                    &&& final(self).answers_delivered() == old(self).answers_delivered().push(b@)
                },
                None => final(self).answers_delivered() == old(self).answers_delivered(),
            }),
    {
        proof {
            lemma_only_first_answer_forwarded(true, self.posted@);
            lemma_only_first_answer_forwarded(true, self.posted@.push(body@));
        }
        let ghost body_view = body@;
        let forwarded = match self.answer_tx.take() {
            Some(tx) => {
                proof {
                    self.delivered@ = self.delivered@.push(body_view);
                }
                Some((tx, body))
            },
            None => None,
        };
        proof {
            self.posted@ = self.posted@.push(body_view);
        }
        (forwarded, "ok")
    }
}

/// Whatever run of answers was posted to a signaling server, exactly the
/// first one reached the host, and none if none was posted.
pub proof fn lemma_first_answer_delivered<Tx>(ctx: SignalCtx<Tx>)
    requires
        ctx.wf(),
    ensures
        ctx.answers_delivered() == (if ctx.answers_posted().len() > 0 {
            seq![ctx.answers_posted()[0]]
        } else {
            Seq::<Seq<char>>::empty()
        }),
{
    lemma_only_first_answer_forwarded(true, ctx.answers_posted());
}

/// What the application holds of a WebRTC session: the session and the
/// task that runs the host's signaling server.
pub struct RtcState<S, T> {
    pub session: Option<S>,
    pub server_task: Option<T>,
}

impl<S, T> RtcState<S, T> {
    /// Nothing held.
    pub fn new() -> (r: RtcState<S, T>)
        ensures
            r.session is None,
            r.server_task is None,
    {
        RtcState { session: None, server_task: None }
    }

    /// Releases what the previous session left: hands back the server task
    /// to abort and the session to close, and holds nothing afterwards.
    pub fn cleanup(&mut self) -> (r: (Option<T>, Option<S>))
        ensures
            r.0 == old(self).server_task,
            r.1 == old(self).session,
            final(self).session is None,
            final(self).server_task is None,
    {
        let task = self.server_task.take();
        let session = self.session.take();
        (task, session)
    }

    /// Holds `session` as the current session.
    pub fn set_session(&mut self, session: S)
        ensures
            final(self).session == Some(session),
            final(self).server_task == old(self).server_task,
    {
        self.session = Some(session);
    }

    /// Holds `task` as the task of the signaling server.
    pub fn set_server_task(&mut self, task: T)
        ensures
            final(self).server_task == Some(task),
            final(self).session == old(self).session,
    {
        self.server_task = Some(task);
    }
}

} // verus!
