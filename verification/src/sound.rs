//! The sound channels of the audio output.

use vstd::prelude::*;

verus! {

/// `channel_count` empty sound channels.
pub fn empty_channels<T>(channel_count: u32) -> (r: Vec<Option<T>>)
    ensures
        r@.len() == channel_count,
        forall|i: int| 0 <= i < r@.len() ==> #[trigger] r@[i] is None,
{
    let mut channels: Vec<Option<T>> = Vec::new();
    let mut i: u32 = 0;
    while i < channel_count
        invariant
            i <= channel_count,
            channels@.len() == i,
            forall|k: int| 0 <= k < channels@.len() ==> #[trigger] channels@[k] is None,
        decreases channel_count - i,
    {
        channels.push(None);
        i = i + 1;
    }
    channels
}

/// The slot of sound channel `channel` among `channel_count` channels: the
/// channel itself when it is below the count (taken as a `u32`), else none.
pub fn channel_slot(channel: u32, channel_count: usize) -> (r: Option<usize>)
    ensures
        r == (if channel < channel_count as u32 { Some(channel as usize) } else { None }),
{
    if channel < channel_count as u32 {
        Some(channel as usize)
    } else {
        None
    }
}

} // verus!
