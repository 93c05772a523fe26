//! The voice rate limiter: a connection may relay at most eight bytes of
//! audio for every millisecond since its previous voice packet.

use crate::packets::frame_views;
use vstd::prelude::*;

verus! {

/// The limit, in bytes for each millisecond (which is kilobytes for each second).
pub const VOICE_LIMIT: u128 = 8;

/// Nanoseconds in a millisecond.
pub const NANOS_PER_MILLI: u128 = 1_000_000;

/// The sum of the lengths of the frames.
pub open spec fn total_len(frames: Seq<Seq<u8>>) -> nat
    decreases frames.len(),
{
    if frames.len() == 0 {
        0
    } else {
        total_len(frames.drop_last()) + frames.last().len()
    }
}

/// The whole milliseconds between two points in time given in nanoseconds.
pub open spec fn elapsed_millis(last: nat, now: nat) -> nat
    recommends
        last <= now,
{
    ((now - last) / 1_000_000) as nat
}

/// Whether `size` bytes, `elapsed` milliseconds after the previous voice
/// packet, stay within the limit: the throughput `size / elapsed` is no more
/// than eight. With nothing elapsed only an empty packet passes.
pub open spec fn within_limit(size: nat, elapsed: nat) -> bool {
    size <= 8 * elapsed
}

/// The number of audio bytes in the frames.
pub fn frame_bytes(frames: &Vec<Vec<u8>>) -> (total: u128)
    ensures
        total == total_len(frame_views(frames@)),
{
    let ghost views = frame_views(frames@);
    let mut total: u128 = 0;
    let mut i: usize = 0;
    assert(views.take(0) =~= Seq::<Seq<u8>>::empty());
    while i < frames.len()
        invariant
            i <= frames.len(),
            views == frame_views(frames@),
            total == total_len(views.take(i as int)),
            total <= i * 0xffff_ffff_ffff_ffff,
        decreases frames.len() - i,
    {
        let ghost so_far = views.take(i as int);
        let len: usize = frames[i].len();
        proof {
            let next = views.take(i + 1);
            assert(next.drop_last() =~= so_far);
            assert(next.last() == frames@[i as int]@);
        }
        total = total + len as u128;
        i += 1;
    }
    assert(views.take(views.len() as int) =~= views);
    total
}

/// The whole milliseconds from `last` to `now`, both in nanoseconds; `None`
/// where `now` lies before `last`.
pub fn millis_between(last: u128, now: u128) -> (out: Option<u128>)
    ensures
        out == (if last <= now {
            Some(elapsed_millis(last as nat, now as nat) as u128)
        } else {
            None
        }),
{
    if now < last {
        None
    } else {
        Some((now - last) / NANOS_PER_MILLI)
    }
}

/// Whether a voice packet of `size` bytes may be relayed `elapsed`
/// milliseconds after the previous one.
pub fn voice_allowed(size: u128, elapsed: u128) -> (ok: bool)
    ensures
        ok == within_limit(size as nat, elapsed as nat),
{
    if elapsed > u128::MAX / VOICE_LIMIT {
        true
    } else {
        size <= VOICE_LIMIT * elapsed
    }
}

} // verus!
