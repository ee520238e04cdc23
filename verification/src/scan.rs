//! What a selection settles on when a given sequence of keyframes is
//! reported to it, and the laws of that choice.

use vstd::prelude::*;
use crate::score::Score;
use crate::score::MINUS_ONE_BITS;
use crate::selector::Event;
use crate::selector::LoadOptions;
use crate::selector::Next;
use crate::selector::Outcome;
use crate::selector::SelectionView;

verus! {

/// A keyframe as the caller would measure it: its score, and the sharpness
/// that it would report if asked.
pub struct Keyframe {
    pub score: Score,
    pub sharpness: Score,
}

/// Whether a keyframe meets the thresholds.
pub open spec fn meets_thresholds(options: LoadOptions, frame: Keyframe) -> bool {
    options.score_passes(frame.score) && options.sharpness_passes(frame.sharpness)
}

/// The selection after a keyframe was reported, and its sharpness too where
/// the selection asked for it.
pub open spec fn feed(s: SelectionView, frame: Keyframe) -> SelectionView {
    let (t, action) = s.step(Event::Keyframe { score: frame.score });
    if action.next == Next::MeasureSharpness {
        t.step(Event::Sharpness { sharpness: frame.sharpness }).0
    } else {
        t
    }
}

/// The selection after the first `n` keyframes of `frames` were reported.
pub open spec fn after(options: LoadOptions, stream: usize, frames: Seq<Keyframe>, n: nat)
    -> SelectionView
    decreases n,
{
    if n == 0 {
        SelectionView::initial(options, stream)
    } else {
        feed(after(options, stream, frames, (n - 1) as nat), frames[n - 1])
    }
}

/// How many of the first `n` keyframes had to be decoded: those reported
/// before the selection settled.
pub open spec fn decoded(options: LoadOptions, stream: usize, frames: Seq<Keyframe>, n: nat) -> nat
    decreases n,
{
    if n == 0 {
        0
    } else {
        let before = decoded(options, stream, frames, (n - 1) as nat);
        if after(options, stream, frames, (n - 1) as nat).done() {
            before
        } else {
            before + 1
        }
    }
}

/// What a scan of a stream with exactly these keyframes settles on.
pub open spec fn select(options: LoadOptions, stream: usize, frames: Seq<Keyframe>) -> Outcome {
    after(options, stream, frames, frames.len()).step(Event::EndOfStream).0.outcome()
}

/// How many keyframes of the stream are examined at most: all of them, or
/// as many as the limit allows.
pub open spec fn window(options: LoadOptions, frames: Seq<Keyframe>) -> nat {
    if frames.len() <= options.limit() {
        frames.len()
    } else {
        options.limit()
    }
}

/// The best keyframe among the first `n`, as it is kept while none of them
/// meets the thresholds: its position, if one was retained, and its score.
pub open spec fn best_of(frames: Seq<Keyframe>, n: nat) -> (Option<nat>, Score)
    decreases n,
{
    if n == 0 {
        (None, Score { bits: MINUS_ONE_BITS })
    } else {
        let (frame, score) = best_of(frames, (n - 1) as nat);
        if frames[n - 1].score.spec_gt(score) {
            (Some((n - 1) as nat), frames[n - 1].score)
        } else {
            (frame, score)
        }
    }
}

/// What `best_of` keeps: a number that is at least -1 and that none of the
/// first `n` scores exceeds; where a keyframe was retained, it is the first
/// one with that score.
proof fn lemma_best_of(frames: Seq<Keyframe>, n: nat)
    requires
        n <= frames.len(),
    ensures
        ({
            let (frame, score) = best_of(frames, n);
            &&& !score.is_nan()
            &&& score.rank() >= (Score { bits: MINUS_ONE_BITS }).rank()
            &&& forall|i: int| 0 <= i < n ==> !(#[trigger] frames[i]).score.spec_gt(score)
            &&& match frame {
                Some(j) => {
                    &&& j < n
                    &&& frames[j as int].score == score
                    &&& score.spec_gt(Score { bits: MINUS_ONE_BITS })
                    &&& forall|i: int| 0 <= i < j ==> !(#[trigger] frames[i]).score.spec_ge(score)
                },
                None => score == (Score { bits: MINUS_ONE_BITS }),
            }
        }),
    decreases n,
{
    if n > 0 {
        lemma_best_of(frames, (n - 1) as nat);
    }
}

/// While none of the first `n` keyframes meets the thresholds and the limit
/// is not passed, each of them is examined and the best of them is kept.
proof fn lemma_scan_without_match(
    options: LoadOptions,
    stream: usize,
    frames: Seq<Keyframe>,
    n: nat,
)
    requires
        n <= window(options, frames),
        forall|i: int| 0 <= i < n ==> !meets_thresholds(options, #[trigger] frames[i]),
    ensures
        ({
            let s = after(options, stream, frames, n);
            &&& s.options == options
            &&& s.stream == stream
            &&& s.frames_examined == n
            &&& (s.best_frame, s.best_score) == best_of(frames, n)
            &&& if n < options.limit() {
                s.phase is Scanning
            } else {
                s.phase is Exhausted
            }
            &&& decoded(options, stream, frames, n) == n
        }),
    decreases n,
{
    if n > 0 {
        lemma_scan_without_match(options, stream, frames, (n - 1) as nat);
    }
}

/// Once a selection has settled, further keyframes change nothing and none
/// of them is decoded.
proof fn lemma_settled_stays(
    options: LoadOptions,
    stream: usize,
    frames: Seq<Keyframe>,
    m: nat,
    n: nat,
)
    requires
        m <= n <= frames.len(),
        after(options, stream, frames, m).done(),
    ensures
        after(options, stream, frames, n) == after(options, stream, frames, m),
        decoded(options, stream, frames, n) == decoded(options, stream, frames, m),
    decreases n,
{
    if n > m {
        lemma_settled_stays(options, stream, frames, m, (n - 1) as nat);
    }
}

/// The first keyframe that meets the thresholds is returned, and no
/// keyframe after it is decoded: if keyframe `k` lies within the limit and
/// meets the thresholds, and none before it does, the scan settles on `k`
/// after `k + 1` keyframes were decoded.
pub proof fn law_first_match_is_returned(
    options: LoadOptions,
    stream: usize,
    frames: Seq<Keyframe>,
    k: nat,
)
    requires
        k < frames.len(),
        k < options.limit(),
        meets_thresholds(options, frames[k as int]),
        forall|i: int| 0 <= i < k ==> !meets_thresholds(options, #[trigger] frames[i]),
    ensures
        select(options, stream, frames) == Outcome::Frame(k),
        decoded(options, stream, frames, frames.len()) == k + 1,
{
    lemma_scan_without_match(options, stream, frames, k);
    lemma_settled_stays(options, stream, frames, k + 1, frames.len());
}

/// Where no keyframe within the limit meets the thresholds, the scan
/// examines every keyframe of the window and settles on the first of the
/// highest score among them; it fails if and only if none of them scores
/// above -1.
pub proof fn law_fallback_is_best(options: LoadOptions, stream: usize, frames: Seq<Keyframe>)
    requires
        forall|i: int|
            0 <= i < window(options, frames) ==> !meets_thresholds(options, #[trigger] frames[i]),
    ensures
        decoded(options, stream, frames, frames.len()) == window(options, frames),
        match select(options, stream, frames) {
            Outcome::Frame(j) => {
                &&& j < window(options, frames)
                &&& frames[j as int].score.spec_gt(Score { bits: MINUS_ONE_BITS })
                &&& forall|i: int|
                    0 <= i < window(options, frames) ==> !(#[trigger] frames[i]).score.spec_gt(
                        frames[j as int].score,
                    )
                &&& forall|i: int|
                    0 <= i < j ==> !(#[trigger] frames[i]).score.spec_ge(frames[j as int].score)
            },
            Outcome::NoSuitableFrame => forall|i: int|
                0 <= i < window(options, frames) ==> !(#[trigger] frames[i]).score.spec_gt(
                    Score { bits: MINUS_ONE_BITS },
                ),
            Outcome::Undecided => false,
        },
{
    let w = window(options, frames);
    lemma_scan_without_match(options, stream, frames, w);
    lemma_best_of(frames, w);
    if w < frames.len() {
        lemma_settled_stays(options, stream, frames, w, frames.len());
    }
}

/// Where no keyframe within the limit meets the thresholds, every score of
/// the window is a number and one of them lies above -1, the scan returns a
/// keyframe of the window whose score is at least every score of the
/// window. A keyframe past the window is never returned.
pub proof fn law_fallback_is_highest(options: LoadOptions, stream: usize, frames: Seq<Keyframe>)
    requires
        forall|i: int|
            0 <= i < window(options, frames) ==> !meets_thresholds(options, #[trigger] frames[i]),
        forall|i: int| 0 <= i < window(options, frames) ==> !(#[trigger] frames[i]).score.is_nan(),
        exists|i: int|
            0 <= i < window(options, frames) && (#[trigger] frames[i]).score.spec_gt(
                Score { bits: MINUS_ONE_BITS },
            ),
    ensures
        select(options, stream, frames) matches Outcome::Frame(j) && j < window(options, frames)
            && forall|i: int|
            0 <= i < window(options, frames) ==> frames[j as int].score.spec_ge(
                (#[trigger] frames[i]).score,
            ),
{
    law_fallback_is_best(options, stream, frames);
}

/// A stream without keyframes has no suitable frame.
pub proof fn law_empty_stream_fails(options: LoadOptions, stream: usize)
    ensures
        select(options, stream, Seq::<Keyframe>::empty()) == Outcome::NoSuitableFrame,
        decoded(options, stream, Seq::<Keyframe>::empty(), 0) == 0,
{
}

} // verus!
