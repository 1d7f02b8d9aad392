//! Capture on Windows: the default output device is recorded in loopback,
//! and each block of 32-bit float samples goes to the receivers as
//! little-endian bytes. The samples come here as their IEEE-754 bit
//! patterns (`f32::to_bits`), which is all the encoding reads of them.
use vstd::prelude::*;
use vstd::string::*;
use crate::payload::{bytes_content, bytes_from_vec};

verus! {

/// The message when the host has no default output device.
pub open spec fn no_output_device_message() -> Seq<char> {
    "출력 장치를 찾을 수 없습니다"@
}

/// Takes the default output device, or fails with a message when there is
/// none.
pub fn output_device<D>(found: Option<D>) -> (r: Result<D, String>)
    ensures
        found matches Some(d) ==> r == Ok::<D, String>(d),
        found is None ==> (r matches Err(m) && m@ == no_output_device_message()),
{
    match found {
        Some(d) => Ok(d),
        None => Err(String::from_str("출력 장치를 찾을 수 없습니다")),
    }
}

/// The four bytes of `x`, least significant first.
pub open spec fn le_bytes(x: u32) -> Seq<u8> {
    seq![(x & 0xff) as u8, ((x >> 8) & 0xff) as u8, ((x >> 16) & 0xff) as u8, ((x >> 24) & 0xff) as u8]
}

/// The samples in order, each as its four little-endian bytes.
pub open spec fn samples_le(samples: Seq<u32>) -> Seq<u8>
    decreases samples.len(),
{
    if samples.len() == 0 {
        Seq::empty()
    } else {
        samples_le(samples.drop_last()) + le_bytes(samples.last())
    }
}

/// The four bytes of a sample give the sample back.
pub proof fn lemma_le_bytes_inverse(x: u32)
    ensures
        le_bytes(x).len() == 4,
        le_bytes(x)[0] + 256 * le_bytes(x)[1] + 65536 * le_bytes(x)[2] + 16777216 * le_bytes(x)[3]
            == x,
{
    let b0: u8 = (x & 0xff) as u8;
    let b1: u8 = ((x >> 8) & 0xff) as u8;
    let b2: u8 = ((x >> 16) & 0xff) as u8;
    let b3: u8 = ((x >> 24) & 0xff) as u8;
    assert(b0 + 256 * b1 + 65536 * b2 + 16777216 * b3 == x) by (bit_vector)
        requires
            b0 == (x & 0xff) as u8,
            b1 == ((x >> 8) & 0xff) as u8,
            b2 == ((x >> 16) & 0xff) as u8,
            b3 == ((x >> 24) & 0xff) as u8,
    ;
}

/// The encoding of `n` samples is `4 * n` bytes, and sample `i` stands, least
/// significant byte first, at bytes `4 * i` to `4 * i + 3`: reading them back
/// gives the sample, so no sample is lost, reordered or altered.
pub proof fn lemma_samples_le_layout(samples: Seq<u32>)
    ensures
        samples_le(samples).len() == 4 * samples.len(),
        forall|i: int| #![trigger samples[i]]
            0 <= i < samples.len() ==> {
                let b = samples_le(samples);
                b[4 * i] + 256 * b[4 * i + 1] + 65536 * b[4 * i + 2] + 16777216 * b[4 * i + 3]
                    == samples[i]
            },
    decreases samples.len(),
{
    if samples.len() > 0 {
        let init = samples.drop_last();
        let x: u32 = samples.last();
        lemma_samples_le_layout(init);
        lemma_le_bytes_inverse(x);
        let b = samples_le(samples);
        let n: nat = init.len();
        assert(b == samples_le(init) + le_bytes(x));
        assert forall|i: int| #![trigger samples[i]] 0 <= i < samples.len() implies {
            b[4 * i] + 256 * b[4 * i + 1] + 65536 * b[4 * i + 2] + 16777216 * b[4 * i + 3]
                == samples[i]
        } by {
            if i < n {
                assert(samples[i] == init[i]);
                assert(b[4 * i] == samples_le(init)[4 * i]);
                assert(b[4 * i + 1] == samples_le(init)[4 * i + 1]);
                assert(b[4 * i + 2] == samples_le(init)[4 * i + 2]);
                assert(b[4 * i + 3] == samples_le(init)[4 * i + 3]);
                assert(init[i] == samples[i]);
            } else {
                assert(i == n);
                assert(b[4 * i] == le_bytes(x)[0]);
                assert(b[4 * i + 1] == le_bytes(x)[1]);
                assert(b[4 * i + 2] == le_bytes(x)[2]);
                assert(b[4 * i + 3] == le_bytes(x)[3]);
            }
        }
    }
}

/// Encodes the samples (their bit patterns) as little-endian bytes, one
/// sample after the other.
pub fn samples_to_le_bytes(samples: &[u32]) -> (r: Vec<u8>)
    ensures
        r@ == samples_le(samples@),
{
    let mut out: Vec<u8> = Vec::new();
    let n: usize = samples.len();
    let mut i: usize = 0;
    while i < n
        invariant
            n == samples@.len(),
            i <= n,
            out@ == samples_le(samples@.subrange(0, i as int)),
        decreases n - i,
    {
        let x: u32 = samples[i];
        out.push((x & 0xff) as u8);
        out.push(((x >> 8) & 0xff) as u8);
        out.push(((x >> 16) & 0xff) as u8);
        out.push(((x >> 24) & 0xff) as u8);
        assert(samples@.subrange(0, i + 1).drop_last() =~= samples@.subrange(0, i as int));
        assert(out@ =~= samples_le(samples@.subrange(0, i as int)) + le_bytes(x));
        i = i + 1;
    }
    assert(samples@.subrange(0, n as int) =~= samples@);
    out
}

/// Decides what becomes of a block of samples that the device delivered: it
/// is sent, encoded as little-endian bytes, only while at least one receiver
/// listens.
pub fn sample_frame(samples: &[u32], receiver_count: usize) -> (r: Option<bytes::Bytes>)
    ensures
        r is Some <==> receiver_count > 0,
        r matches Some(b) ==> bytes_content(b) == samples_le(samples@),
{
    if receiver_count > 0 {
        Some(bytes_from_vec(samples_to_le_bytes(samples)))
    } else {
        None
    }
}

} // verus!
