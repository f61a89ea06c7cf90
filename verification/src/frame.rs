//! The fixed 32-byte command frame sent to the device.

use vstd::prelude::*;

verus! {

/// Length of every frame exchanged with the device, in bytes.
pub const FRAME_LEN: usize = 32;

/// Largest payload that fits in a frame after the marker byte.
pub const MAX_PAYLOAD_LEN: usize = 31;

/// Marker placed in byte 0 of every outbound frame.
pub const FRAME_MARKER: u8 = 0xff;

/// True when `data` is small enough to be packed into one frame.
///
/// The input-reading side must call this before `build_frame`; a payload of
/// 31 bytes is the largest one accepted.
pub fn payload_fits(data: &[u8]) -> (ok: bool)
    ensures
        ok == (data@.len() <= MAX_PAYLOAD_LEN),
{
    data.len() <= MAX_PAYLOAD_LEN
}

/// Packs `payload` into a 32-byte frame: byte 0 is the protocol marker,
/// bytes [1, 1 + len) are the payload, and the remainder is zero.
pub fn build_frame(payload: &[u8]) -> (cmd: Vec<u8>)
    requires
        payload@.len() <= MAX_PAYLOAD_LEN,
    ensures
        cmd@.len() == FRAME_LEN,
        cmd@[0] == FRAME_MARKER,
        forall|i: int| 0 <= i < payload@.len() ==> cmd@[i + 1] == payload@[i],
        forall|i: int| payload@.len() + 1 <= i < FRAME_LEN ==> cmd@[i] == 0,
{
    let mut cmd: Vec<u8> = Vec::new();
    cmd.push(FRAME_MARKER);
    let mut i: usize = 0;
    while i < payload.len()
        invariant
            i <= payload@.len() <= MAX_PAYLOAD_LEN,
            cmd@.len() == i + 1,
            cmd@[0] == FRAME_MARKER,
            forall|j: int| 0 <= j < i ==> cmd@[j + 1] == payload@[j],
        decreases payload@.len() - i,
    {
        cmd.push(payload[i]);
        i += 1;
    }
    while cmd.len() < FRAME_LEN
        invariant
            payload@.len() + 1 <= cmd@.len() <= FRAME_LEN,
            cmd@[0] == FRAME_MARKER,
            forall|j: int| 0 <= j < payload@.len() ==> cmd@[j + 1] == payload@[j],
            forall|j: int| payload@.len() + 1 <= j < cmd@.len() ==> cmd@[j] == 0,
        decreases FRAME_LEN - cmd@.len(),
    {
        cmd.push(0);
    }
    cmd
}

} // verus!
