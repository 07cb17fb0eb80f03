//! The serial console client: what it does with each read from the
//! character device.

use vstd::prelude::*;

verus! {

/// What the client does after one read from the serial stream.
#[derive(Debug, PartialEq, Eq, Structural)]
pub enum SerialAction {
    /// Feed this many bytes, from the start of the buffer, to the terminal.
    Feed(usize),
    /// Stop reading.
    Stop,
}

/// One read of at most `capacity` bytes came back with `outcome`: the
/// number of bytes read, or `None` when the read failed. The end of the
/// stream (no byte) and a failure stop the client; otherwise it feeds what
/// was read.
pub fn serial_read_action(outcome: Option<usize>, capacity: usize) -> (r: SerialAction)
    requires
        outcome matches Some(n) ==> n <= capacity,
    ensures
        match outcome {
            Some(n) => if n == 0 { r == SerialAction::Stop } else { r == SerialAction::Feed(n) },
            None => r == SerialAction::Stop,
        },
{
    match outcome {
        Some(n) => if n == 0 {
            SerialAction::Stop
        } else {
            SerialAction::Feed(n)
        },
        None => SerialAction::Stop,
    }
}

} // verus!
