//! DMX frames and the rule that sizes them for a transport.

use vstd::prelude::*;

verus! {

/// The number of channels of `frame` that a transport keeps: all of them, or
/// the first `max` where the frame is longer.
pub open spec fn kept_len(len: nat, max: nat) -> nat {
    if len > max {
        max
    } else {
        len
    }
}

/// The length of the payload that a transport with the limits `min` and `max`
/// sends for a frame of `len` channels.
pub open spec fn payload_len(len: nat, min: nat, max: nat) -> nat {
    if kept_len(len, max) < min {
        min
    } else {
        kept_len(len, max)
    }
}

/// The payload that a transport sends for `frame`: the channels it keeps, in
/// order, followed by zeros up to the minimum length.
pub open spec fn normalized(frame: Seq<u8>, min: nat, max: nat) -> Seq<u8> {
    Seq::new(
        payload_len(frame.len(), min, max),
        |i: int|
            if i < kept_len(frame.len(), max) {
                frame[i]
            } else {
                0u8
            },
    )
}

/// Brings `frame` to a length between `min` and `max`: channels beyond `max`
/// are dropped, and a frame shorter than `min` is filled up with zeros.
pub fn normalize(frame: &[u8], min: usize, max: usize) -> (payload: Vec<u8>)
    ensures
        payload@ == normalized(frame@, min as nat, max as nat),
{
    let kept: usize = if frame.len() > max {
        max
    } else {
        frame.len()
    };
    let mut payload: Vec<u8> = Vec::new();
    let mut i: usize = 0;
    while i < kept
        invariant
            i <= kept,
            kept == kept_len(frame@.len(), max as nat),
            payload@.len() == i,
            forall|k: int| 0 <= k < i ==> payload@[k] == frame@[k],
        decreases kept - i,
    {
        payload.push(frame[i]);
        i += 1;
    }
    while i < min
        invariant
            kept <= i,
            i <= min || i == kept,
            kept == kept_len(frame@.len(), max as nat),
            payload@.len() == i,
            forall|k: int| 0 <= k < kept ==> payload@[k] == frame@[k],
            forall|k: int| kept <= k < i ==> payload@[k] == 0u8,
        decreases min - i,
    {
        payload.push(0u8);
        i += 1;
    }
    payload
}

/// A run of `count` zeros: the channels that a short frame lacks.
pub open spec fn zeros(count: nat) -> Seq<u8> {
    Seq::new(count, |i: int| 0u8)
}

/// A frame shorter than the transport's minimum is sent as the frame itself
/// followed by zeros up to the minimum.
pub proof fn lemma_short_frame_is_padded(frame: Seq<u8>, min: nat, max: nat)
    requires
        frame.len() < min <= max,
    ensures
        normalized(frame, min, max) == frame + zeros((min - frame.len()) as nat),
        normalized(frame, min, max).len() == min,
{
    assert(normalized(frame, min, max) =~= frame + zeros((min - frame.len()) as nat));
}

/// A frame longer than the transport's maximum is sent as its first `max`
/// channels: nothing beyond them reaches the payload.
pub proof fn lemma_long_frame_is_truncated(frame: Seq<u8>, min: nat, max: nat)
    requires
        min <= max < frame.len(),
    ensures
        normalized(frame, min, max) == frame.take(max as int),
        normalized(frame, min, max).len() == max,
{
    assert(normalized(frame, min, max) =~= frame.take(max as int));
}

/// A frame whose length the transport supports is sent as it is.
pub proof fn lemma_fitting_frame_is_kept(frame: Seq<u8>, min: nat, max: nat)
    requires
        min <= frame.len() <= max,
    ensures
        normalized(frame, min, max) == frame,
{
    assert(normalized(frame, min, max) =~= frame);
}

} // verus!
