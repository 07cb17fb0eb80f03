//! What the audio handlers take from QEMU's audio messages.

use vstd::prelude::*;

verus! {

/// The volume that the audio streams are set to: that of the first channel,
/// if the message carries any channel.
pub fn first_channel_volume(channels: &Vec<u8>) -> (r: Option<u8>)
    ensures
        channels.len() == 0 ==> r is None,
        channels.len() > 0 ==> r == Some(channels@[0]),
{
    if channels.len() > 0 {
        Some(channels[0])
    } else {
        None
    }
}

/// The samples answered to a capture request: what the input stream gave,
/// or nothing when reading it failed.
pub fn samples_or_silence<E>(read: Result<Vec<u8>, E>) -> (r: Vec<u8>)
    ensures
        match read {
            Ok(data) => r@ == data@,
            Err(_) => r@.len() == 0,
        },
{
    match read {
        Ok(data) => data,
        Err(_) => Vec::new(),
    }
}

} // verus!
