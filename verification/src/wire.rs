//! Framing of the messages between a client and an oracle: a length of four
//! bytes, big-endian, and then as many bytes of payload. A payload is at most
//! `MAX_MSG` bytes long; a longer one is neither sent nor read.

use crate::emulator::EmulatorError;
use vstd::prelude::*;

verus! {

/// The greatest length of a payload, in bytes.
pub const MAX_MSG: usize = 1_000_000;

/// The four bytes that announce a payload of `n` bytes.
pub open spec fn length_prefix(n: nat) -> Seq<u8> {
    seq![
        (n / 0x100_0000 % 0x100) as u8,
        (n / 0x1_0000 % 0x100) as u8,
        (n / 0x100 % 0x100) as u8,
        (n % 0x100) as u8,
    ]
}

/// The length that a header of four bytes announces.
pub open spec fn declared_length(header: Seq<u8>) -> nat {
    (header[0] * 0x100_0000 + header[1] * 0x1_0000 + header[2] * 0x100 + header[3]) as nat
}

/// A payload with its length in front.
pub open spec fn framed(payload: Seq<u8>) -> Seq<u8> {
    length_prefix(payload.len()) + payload
}

/// A number of 32 bits is spelled by its four bytes.
proof fn lemma_bytes_spell_length(n: u32)
    by (bit_vector)
    ensures
        (n / 0x100_0000 % 0x100) * 0x100_0000 + (n / 0x1_0000 % 0x100) * 0x1_0000 + (n / 0x100
            % 0x100) * 0x100 + n % 0x100 == n,
{
}

/// A header says how long the payload is that it was made for.
pub proof fn lemma_prefix_round_trip(n: nat)
    requires
        n < 0x1_0000_0000,
    ensures
        length_prefix(n).len() == 4,
        declared_length(length_prefix(n)) == n,
{
    lemma_bytes_spell_length(n as u32);
}

/// A frame is its header and then its payload, and nothing else.
pub proof fn lemma_frame_parts(payload: Seq<u8>)
    requires
        payload.len() < 0x1_0000_0000,
    ensures
        framed(payload).len() == 4 + payload.len(),
        declared_length(framed(payload).subrange(0, 4)) == payload.len(),
        framed(payload).subrange(4, framed(payload).len() as int) == payload,
{
    lemma_prefix_round_trip(payload.len());
    assert(framed(payload).subrange(0, 4) =~= length_prefix(payload.len()));
    assert(framed(payload).subrange(4, framed(payload).len() as int) =~= payload);
}

/// Puts the length in front of a payload. A payload of more than `MAX_MSG`
/// bytes is refused.
pub fn frame(payload: &Vec<u8>) -> (r: Result<Vec<u8>, EmulatorError>)
    ensures
        match r {
            Ok(f) => payload@.len() <= MAX_MSG && f@ == framed(payload@),
            Err(e) => payload@.len() > MAX_MSG && e == EmulatorError::Transport,
        },
{
    let n = payload.len();
    if n > MAX_MSG {
        return Err(EmulatorError::Transport);
    }
    let mut f: Vec<u8> = Vec::new();
    f.push((n / 0x100_0000 % 0x100) as u8);
    f.push((n / 0x1_0000 % 0x100) as u8);
    f.push((n / 0x100 % 0x100) as u8);
    f.push((n % 0x100) as u8);
    let mut i: usize = 0;
    while i < n
        invariant
            i <= n,
            n == payload@.len(),
            f@ == length_prefix(n as nat) + payload@.take(i as int),
        decreases n - i,
    {
        f.push(payload[i]);
        assert(payload@.take(i as int).push(payload@[i as int]) =~= payload@.take(i + 1));
        i += 1;
    }
    assert(payload@.take(n as int) =~= payload@);
    Ok(f)
}

/// Reads the length that a header announces. A length of more than `MAX_MSG`
/// is refused, before a byte of the payload is looked at.
pub fn read_length(header: &[u8; 4]) -> (r: Result<usize, EmulatorError>)
    ensures
        match r {
            Ok(n) => n == declared_length(header@) && n <= MAX_MSG,
            Err(e) => declared_length(header@) > MAX_MSG && e == EmulatorError::Transport,
        },
{
    let n: u32 = (header[0] as u32) * 0x100_0000 + (header[1] as u32) * 0x1_0000 + (
    header[2] as u32) * 0x100 + (header[3] as u32);
    if n > 1_000_000 {
        Err(EmulatorError::Transport)
    } else {
        Ok(n as usize)
    }
}

} // verus!
