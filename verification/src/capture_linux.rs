//! Capture on Linux: PulseAudio records the monitor source of the default
//! sink, and each chunk that it reads goes to the receivers.
use vstd::prelude::*;
use vstd::string::*;
use vstd::utf8::*;
use crate::AudioConfig;
use crate::payload::{bytes_content, bytes_copy_from_slice};
use crate::text::{string_from_utf8, trim, trimmed, utf8_error_text, is_trim_of, lemma_trim_shape};

verus! {

/// Frames per second that the capture records.
pub const SAMPLE_RATE: u32 = 48000;

/// Channels that the capture records.
pub const CHANNELS: u16 = 2;

/// Bytes of one sample: a 32-bit float.
pub const BYTES_PER_SAMPLE: usize = 4;

/// Frames that one read fills.
pub const FRAMES_PER_READ: usize = 1024;

/// What a capture needs before it opens the stream: which source to record,
/// in which format, and how much each read takes.
#[derive(Debug, PartialEq, Eq)]
pub struct CapturePlan {
    /// The PulseAudio source to record: the monitor of the default sink.
    pub monitor_source: String,
    /// The format of the recording.
    pub config: AudioConfig,
    /// Bytes that one read fills.
    pub read_buffer_len: usize,
}

/// The name of the monitor source of a sink, given the sink's name as
/// `pactl get-default-sink` prints it.
pub open spec fn monitor_of(sink_output: Seq<char>) -> Seq<char> {
    trim(sink_output) + ".monitor"@
}

/// The monitor source of a sink is the sink's name, as `pactl` printed it
/// without the white space around it, followed by the 8 characters
/// `.monitor`, whatever the name's length.
pub proof fn lemma_monitor_of_shape(sink_output: Seq<char>)
    ensures
        monitor_of(sink_output).len() == trim(sink_output).len() + 8,
        monitor_of(sink_output).subrange(monitor_of(sink_output).len() - 8, monitor_of(sink_output).len() as int) == seq!['.', 'm', 'o', 'n', 'i', 't', 'o', 'r'],
        is_trim_of(sink_output, monitor_of(sink_output).subrange(0, monitor_of(sink_output).len() - 8)),
{
    reveal_strlit(".monitor");
    let t = trim(sink_output);
    let m = monitor_of(sink_output);
    lemma_trim_shape(sink_output);
    assert(m.subrange(0, m.len() - 8) =~= t);
    assert(m.subrange(m.len() - 8, m.len() as int) =~= seq!['.', 'm', 'o', 'n', 'i', 't', 'o', 'r']);
}

/// Plans the capture from what `pactl get-default-sink` printed: the output
/// must be UTF-8; the sink's name is the output without surrounding white
/// space, and its monitor source is recorded as 32-bit samples, two channels
/// at 48000 frames per second, 1024 frames per read. Output that is not
/// UTF-8 is refused with the decoder's message.
pub fn capture_sound(default_sink_output: Vec<u8>) -> (r: Result<CapturePlan, String>)
    ensures
        r is Ok <==> valid_utf8(default_sink_output@),
        r matches Ok(plan) ==> {
            &&& plan.monitor_source@ == monitor_of(decode_utf8(default_sink_output@))
            &&& plan.monitor_source@.len() == trim(decode_utf8(default_sink_output@)).len() + 8
            &&& plan.monitor_source@.subrange(plan.monitor_source@.len() - 8, plan.monitor_source@.len() as int) == seq!['.', 'm', 'o', 'n', 'i', 't', 'o', 'r']
            &&& is_trim_of(decode_utf8(default_sink_output@), plan.monitor_source@.subrange(0, plan.monitor_source@.len() - 8))
            &&& plan.config == AudioConfig { sample_rate: SAMPLE_RATE, channels: CHANNELS }
            &&& plan.read_buffer_len == CHANNELS * BYTES_PER_SAMPLE * FRAMES_PER_READ
        },
        r matches Err(m) ==> m@ == utf8_error_text(default_sink_output@),
{
    match string_from_utf8(default_sink_output) {
        Ok(output) => {
            let mut monitor_source = trimmed(output.as_str());
            monitor_source.append(".monitor");
            proof {
                lemma_monitor_of_shape(output@);
            }
            let frame_bytes: usize = (CHANNELS as usize) * BYTES_PER_SAMPLE;
            Ok(
                CapturePlan {
                    monitor_source,
                    config: AudioConfig::new(SAMPLE_RATE, CHANNELS),
                    read_buffer_len: frame_bytes * FRAMES_PER_READ,
                },
            )
        },
        Err(message) => Err(message),
    }
}

/// What the capture loop does after a read.
#[derive(Debug)]
pub enum FrameAction {
    /// Send this chunk to the receivers.
    Forward(bytes::Bytes),
    /// Nobody listens: drop the chunk.
    Skip,
    /// The stream failed: end the capture.
    Stop,
}

/// Decides what becomes of the chunk in `buf` after a read: a failed read
/// ends the capture; a chunk is sent, as an exact copy, only while at least
/// one receiver listens.
pub fn frame_action(read_ok: bool, buf: &[u8], receiver_count: usize) -> (r: FrameAction)
    ensures
        !read_ok ==> r is Stop,
        read_ok && receiver_count > 0 ==> (r matches FrameAction::Forward(b) && bytes_content(b)
            == buf@),
        read_ok && receiver_count == 0 ==> r is Skip,
{
    if !read_ok {
        FrameAction::Stop
    } else if receiver_count > 0 {
        FrameAction::Forward(bytes_copy_from_slice(buf))
    } else {
        FrameAction::Skip
    }
}

} // verus!
