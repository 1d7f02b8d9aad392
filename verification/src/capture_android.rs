//! Capture on Android, which the application does not support.
use vstd::prelude::*;
use vstd::string::*;
use crate::AudioConfig;

verus! {

/// The message that refuses a capture on Android.
pub open spec fn android_unsupported_message() -> Seq<char> {
    "Android에서는 오디오 캡처가 아직 지원되지 않습니다"@
}

/// A capture on Android always fails, with a message that says so.
pub fn capture_sound() -> (r: Result<AudioConfig, String>)
    ensures
        r matches Err(m) && m@ == android_unsupported_message(),
{
    Err(String::from_str("Android에서는 오디오 캡처가 아직 지원되지 않습니다"))
}

} // verus!
