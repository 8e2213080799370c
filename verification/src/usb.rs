//! USB serial: endpoint errors and the echo reply.

use vstd::prelude::*;

verus! {

/// Errors of a USB endpoint transfer.
#[derive(Debug, Clone, Copy, PartialEq, Eq, Structural)]
pub enum UsbEndpointError {
    /// The packet did not fit in the buffer.
    BufferOverflow,
    /// The endpoint is disabled: the host went away.
    Disabled,
}

/// The USB host disconnected.
#[derive(Debug, Clone, Copy, PartialEq, Eq, Structural)]
pub struct Disconnected;

impl Disconnected {
    /// A disabled endpoint means the host disconnected; a buffer overflow
    /// is a fault of the firmware and is not passed to this conversion.
    pub fn from_endpoint_error(e: UsbEndpointError) -> (r: Disconnected)
        requires
            e == UsbEndpointError::Disabled,
        ensures
            r == Disconnected,
    {
        Disconnected
    }
}

/// `Received data: ` as bytes.
pub open spec fn echo_prefix() -> Seq<u8> {
    seq![
        82u8, 101u8, 99u8, 101u8, 105u8, 118u8, 101u8, 100u8, 32u8, 100u8, 97u8, 116u8, 97u8,
        58u8, 32u8,
    ]
}

/// Capacity of the echo buffer.
pub const ECHO_CAPACITY: usize = 128;

/// The packet sent back for a received packet: `Received data: `
/// followed by the data. The data must fit in the 128-byte echo buffer
/// after the 15-byte prefix.
pub fn echo_reply(data: &[u8]) -> (r: Vec<u8>)
    requires
        data@.len() + 15 <= ECHO_CAPACITY,
    ensures
        r@ == echo_prefix() + data@,
{
    let mut v: Vec<u8> = vec![82, 101, 99, 101, 105, 118, 101, 100, 32, 100, 97, 116, 97, 58, 32];
    assert(v@ =~= echo_prefix());
    let mut i: usize = 0;
    while i < data.len()
        invariant
            i <= data@.len(),
            v@ == echo_prefix() + data@.subrange(0, i as int),
        decreases data@.len() - i,
    {
        v.push(data[i]);
        i = i + 1;
        assert(v@ =~= echo_prefix() + data@.subrange(0, i as int));
    }
    assert(data@.subrange(0, data@.len() as int) =~= data@);
    v
}

} // verus!
