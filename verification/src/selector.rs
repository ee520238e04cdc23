//! Choosing the keyframe that stands for a video.
//!
//! The caller demuxes and decodes; after each keyframe it reports the frame's
//! score to a [`Selection`] and does what the answer says. The selection
//! settles on the first keyframe that meets the thresholds, or, once the
//! stream or the limit of keyframes has ended, on the best one it retained.

use vstd::prelude::*;
use crate::error::ApiError;
use crate::score::Score;
use crate::score::MINUS_ONE_BITS;

verus! {

/// What the operator fixed when the process started.
#[derive(Clone, Copy, Debug)]
pub struct LoadOptions {
    /// How many keyframes are examined at most; at least one always is.
    pub max_keyframes: i32,
    /// The score from which a keyframe is good enough.
    pub score_threshold: Score,
    /// The sharpness that a good enough keyframe must reach too, if any.
    pub sharpness_threshold: Option<Score>,
}

impl LoadOptions {
    /// The number of keyframes after which scanning stops.
    pub open spec fn limit(self) -> nat {
        if self.max_keyframes < 1 {
            1
        } else {
            self.max_keyframes as nat
        }
    }

    /// Whether a score reaches the score threshold.
    pub open spec fn score_passes(self, score: Score) -> bool {
        score.spec_ge(self.score_threshold)
    }

    /// Whether a sharpness reaches the sharpness threshold, where one is set.
    pub open spec fn sharpness_passes(self, sharpness: Score) -> bool {
        match self.sharpness_threshold {
            Some(threshold) => sharpness.spec_ge(threshold),
            None => true,
        }
    }
}

/// Where a selection stands.
#[derive(Clone, Copy, Debug)]
pub enum Phase {
    /// Keyframes are still wanted.
    Scanning,
    /// The last keyframe reached the score threshold; its sharpness is wanted.
    AwaitingSharpness { score: Score },
    /// The last keyframe met the thresholds.
    Found,
    /// The stream or the limit of keyframes has ended.
    Exhausted,
}

/// What the caller reports.
#[derive(Clone, Copy, Debug)]
pub enum Event {
    /// A keyframe was decoded and scored.
    Keyframe { score: Score },
    /// The sharpness that was asked for.
    Sharpness { sharpness: Score },
    /// The stream holds no further packet.
    EndOfStream,
}

/// What the caller does next.
#[derive(Clone, Copy, Debug, PartialEq, Eq, Structural)]
pub enum Next {
    /// Decode on and report the next keyframe.
    Decode,
    /// Measure the sharpness of the keyframe last reported, and report it.
    MeasureSharpness,
    /// Stop, and return the keyframe last reported.
    ReturnCurrent,
    /// Stop, and return the keyframe that is kept as the best.
    ReturnBest,
    /// Stop: there is no frame to return.
    Fail,
}

/// The answer to an event.
#[derive(Clone, Copy, Debug, PartialEq, Eq, Structural)]
pub struct Action {
    /// Whether the keyframe last reported is kept as the best from now on.
    pub retain: bool,
    /// What to do next.
    pub next: Next,
}

/// What a selection has settled on.
pub enum Outcome {
    /// Nothing yet.
    Undecided,
    /// The keyframe with this position among the keyframes reported.
    Frame(nat),
    /// No keyframe was retained.
    NoSuitableFrame,
}

/// A selection as a mathematical value.
pub struct SelectionView {
    pub options: LoadOptions,
    /// The index of the stream whose packets are decoded.
    pub stream: usize,
    pub phase: Phase,
    /// The position of the best keyframe so far, if one was retained.
    pub best_frame: Option<nat>,
    /// The score of the best keyframe so far; -1 while none was retained.
    pub best_score: Score,
    /// How many keyframes were examined and not returned.
    pub frames_examined: nat,
}

impl SelectionView {
    /// The selection before the first event.
    pub open spec fn initial(options: LoadOptions, stream: usize) -> SelectionView {
        SelectionView {
            options,
            stream,
            phase: Phase::Scanning,
            best_frame: None,
            best_score: Score { bits: MINUS_ONE_BITS },
            frames_examined: 0,
        }
    }

    /// What every selection keeps true of itself.
    pub open spec fn wf(self) -> bool {
        &&& self.frames_examined <= self.options.limit()
        &&& (self.phase is Scanning || self.phase is AwaitingSharpness)
                ==> self.frames_examined < self.options.limit()
        &&& self.best_frame matches Some(j) ==> j < self.frames_examined
    }

    /// Whether the selection has settled.
    pub open spec fn done(self) -> bool {
        self.phase is Found || self.phase is Exhausted
    }

    /// What the selection has settled on.
    pub open spec fn outcome(self) -> Outcome {
        match self.phase {
            Phase::Found => Outcome::Frame(self.frames_examined),
            Phase::Exhausted => match self.best_frame {
                Some(j) => Outcome::Frame(j),
                None => Outcome::NoSuitableFrame,
            },
            _ => Outcome::Undecided,
        }
    }

    /// The answer of a settled selection to any further event.
    pub open spec fn verdict(self) -> Next {
        match self.outcome() {
            Outcome::Frame(_) => if self.phase is Found {
                Next::ReturnCurrent
            } else {
                Next::ReturnBest
            },
            _ => Next::Fail,
        }
    }

    /// The keyframe last reported is returned.
    pub open spec fn accept(self) -> (SelectionView, Action) {
        (
            SelectionView { phase: Phase::Found, ..self },
            Action { retain: false, next: Next::ReturnCurrent },
        )
    }

    /// The keyframe last reported did not meet the thresholds: it is kept if
    /// it beats the best so far, and counted.
    pub open spec fn consider(self, score: Score) -> (SelectionView, Action) {
        let retain = score.spec_gt(self.best_score);
        let examined = self.frames_examined + 1;
        let last = examined >= self.options.limit();
        let best_frame = if retain {
            Some(self.frames_examined)
        } else {
            self.best_frame
        };
        let next = if !last {
            Next::Decode
        } else if best_frame is Some {
            Next::ReturnBest
        } else {
            Next::Fail
        };
        (
            SelectionView {
                phase: if last {
                    Phase::Exhausted
                } else {
                    Phase::Scanning
                },
                best_frame,
                best_score: if retain {
                    score
                } else {
                    self.best_score
                },
                frames_examined: examined,
                ..self
            },
            Action { retain, next },
        )
    }

    /// The selection after an event, and the answer to it. An event that the
    /// phase does not wait for changes nothing.
    pub open spec fn step(self, event: Event) -> (SelectionView, Action) {
        match (self.phase, event) {
            (Phase::Scanning, Event::Keyframe { score }) => {
                if !self.options.score_passes(score) {
                    self.consider(score)
                } else if self.options.sharpness_threshold is Some {
                    (
                        SelectionView { phase: Phase::AwaitingSharpness { score }, ..self },
                        Action { retain: false, next: Next::MeasureSharpness },
                    )
                } else {
                    self.accept()
                }
            },
            (Phase::Scanning, Event::EndOfStream) => {
                (
                    SelectionView { phase: Phase::Exhausted, ..self },
                    Action {
                        retain: false,
                        next: if self.best_frame is Some {
                            Next::ReturnBest
                        } else {
                            Next::Fail
                        },
                    },
                )
            },
            (Phase::Scanning, Event::Sharpness { .. }) => {
                (self, Action { retain: false, next: Next::Decode })
            },
            (Phase::AwaitingSharpness { score }, Event::Sharpness { sharpness }) => {
                if self.options.sharpness_passes(sharpness) {
                    self.accept()
                } else {
                    self.consider(score)
                }
            },
            (Phase::AwaitingSharpness { .. }, _) => {
                (self, Action { retain: false, next: Next::MeasureSharpness })
            },
            (_, _) => (self, Action { retain: false, next: self.verdict() }),
        }
    }
}

/// The state of one scan for a keyframe.
#[derive(Debug)]
pub struct Selection {
    options: LoadOptions,
    stream: usize,
    phase: Phase,
    best_frame: Option<u32>,
    best_score: Score,
    frames_examined: u32,
}

impl View for Selection {
    type V = SelectionView;

    closed spec fn view(&self) -> SelectionView {
        SelectionView {
            options: self.options,
            stream: self.stream,
            phase: self.phase,
            best_frame: match self.best_frame {
                Some(j) => Some(j as nat),
                None => None,
            },
            best_score: self.best_score,
            frames_examined: self.frames_examined as nat,
        }
    }
}

impl Selection {
    #[verifier::type_invariant]
    spec fn well_formed(self) -> bool {
        self@.wf()
    }

    /// Begins a scan of the stream that the demuxer found to be the best
    /// video stream; fails where it found none.
    pub fn start(options: LoadOptions, video_stream: Option<usize>) -> (r: Result<
        Selection,
        ApiError,
    >)
        ensures
            match video_stream {
                Some(stream) => r matches Ok(s) && s@ == SelectionView::initial(options, stream),
                None => r == Err::<Selection, ApiError>(ApiError::NoVideoStream),
            },
    {
        match video_stream {
            Some(stream) => Ok(
                Selection {
                    options,
                    stream,
                    phase: Phase::Scanning,
                    best_frame: None,
                    best_score: Score::minus_one(),
                    frames_examined: 0,
                },
            ),
            None => Err(ApiError::NoVideoStream),
        }
    }

    /// Whether a packet of the stream with this index is decoded.
    pub fn wants_packet(&self, stream_index: usize) -> (b: bool)
        ensures
            b == (stream_index == self@.stream),
    {
        stream_index == self.stream
    }

    /// The keyframe last reported did not meet the thresholds.
    fn consider(&mut self, score: Score) -> (action: Action)
        requires
            old(self)@.phase is Scanning || old(self)@.phase is AwaitingSharpness,
        ensures
            (final(self)@, action) == old(self)@.consider(score),
    {
        proof {
            use_type_invariant(&*self);
        }
        let retain = score.gt(&self.best_score);
        let examined: u32 = self.frames_examined + 1;
        let last = examined as i64 >= self.options.max_keyframes as i64;
        let best_frame = if retain {
            Some(self.frames_examined)
        } else {
            self.best_frame
        };
        let next = if !last {
            Next::Decode
        } else if best_frame.is_some() {
            Next::ReturnBest
        } else {
            Next::Fail
        };
        *self = Selection {
            options: self.options,
            stream: self.stream,
            phase: if last {
                Phase::Exhausted
            } else {
                Phase::Scanning
            },
            best_frame,
            best_score: if retain {
                score
            } else {
                self.best_score
            },
            frames_examined: examined,
        };
        Action { retain, next }
    }

    /// The keyframe last reported is returned.
    fn accept(&mut self) -> (action: Action)
        requires
            old(self)@.phase is Scanning || old(self)@.phase is AwaitingSharpness,
        ensures
            (final(self)@, action) == old(self)@.accept(),
    {
        proof {
            use_type_invariant(&*self);
        }
        *self = Selection {
            options: self.options,
            stream: self.stream,
            phase: Phase::Found,
            best_frame: self.best_frame,
            best_score: self.best_score,
            frames_examined: self.frames_examined,
        };
        Action { retain: false, next: Next::ReturnCurrent }
    }

    /// Takes an event and says what to do next.
    pub fn step(&mut self, event: Event) -> (action: Action)
        ensures
            (final(self)@, action) == old(self)@.step(event),
    {
        proof {
            use_type_invariant(&*self);
        }
        match (self.phase, event) {
            (Phase::Scanning, Event::Keyframe { score }) => {
                if !score.ge(&self.options.score_threshold) {
                    self.consider(score)
                } else if self.options.sharpness_threshold.is_some() {
                    *self = Selection {
                        options: self.options,
                        stream: self.stream,
                        phase: Phase::AwaitingSharpness { score },
                        best_frame: self.best_frame,
                        best_score: self.best_score,
                        frames_examined: self.frames_examined,
                    };
                    Action { retain: false, next: Next::MeasureSharpness }
                } else {
                    self.accept()
                }
            },
            (Phase::Scanning, Event::EndOfStream) => {
                let next = if self.best_frame.is_some() {
                    Next::ReturnBest
                } else {
                    Next::Fail
                };
                *self = Selection {
                    options: self.options,
                    stream: self.stream,
                    phase: Phase::Exhausted,
                    best_frame: self.best_frame,
                    best_score: self.best_score,
                    frames_examined: self.frames_examined,
                };
                Action { retain: false, next }
            },
            (Phase::Scanning, Event::Sharpness { .. }) => {
                Action { retain: false, next: Next::Decode }
            },
            (Phase::AwaitingSharpness { score }, Event::Sharpness { sharpness }) => {
                let sharp = match self.options.sharpness_threshold {
                    Some(threshold) => sharpness.ge(&threshold),
                    None => true,
                };
                if sharp {
                    self.accept()
                } else {
                    self.consider(score)
                }
            },
            (Phase::AwaitingSharpness { .. }, _) => {
                Action { retain: false, next: Next::MeasureSharpness }
            },
            (Phase::Found, _) => Action { retain: false, next: Next::ReturnCurrent },
            (Phase::Exhausted, _) => {
                let next = if self.best_frame.is_some() {
                    Next::ReturnBest
                } else {
                    Next::Fail
                };
                Action { retain: false, next }
            },
        }
    }

    /// The position of the keyframe that the selection settled on, among the
    /// keyframes reported; `None` while it has not settled.
    pub fn outcome(&self) -> (r: Option<Result<u32, ApiError>>)
        ensures
            match self@.outcome() {
                Outcome::Undecided => r is None,
                Outcome::Frame(j) => r == Some(Ok::<u32, ApiError>(j as u32)) && j <= u32::MAX,
                Outcome::NoSuitableFrame => r == Some(
                    Err::<u32, ApiError>(ApiError::NoSuitableFrame),
                ),
            },
    {
        proof {
            use_type_invariant(self);
        }
        match self.phase {
            Phase::Found => Some(Ok(self.frames_examined)),
            Phase::Exhausted => match self.best_frame {
                Some(j) => Some(Ok(j)),
                None => Some(Err(ApiError::NoSuitableFrame)),
            },
            _ => None,
        }
    }
}

} // verus!
