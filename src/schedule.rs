use vstd::prelude::*;

verus! {

/// A phase of the pipeline.
#[derive(Clone, Copy, Debug, PartialEq, Eq, Structural)]
pub enum Stage {
    Setup,
    Render,
    Update,
}

/// The stage at position `i` of the pipeline: Setup first, then Render and
/// Update in turn.
pub open spec fn stage_at(i: nat) -> Stage {
    if i == 0 {
        Stage::Setup
    } else if i % 2 == 1 {
        Stage::Render
    } else {
        Stage::Update
    }
}

/// The stages run for `n` complete frames: Setup, then (Render, Update) `n` times.
pub open spec fn frames_trace(n: nat) -> Seq<Stage>
    decreases n,
{
    if n == 0 {
        seq![Stage::Setup]
    } else {
        frames_trace((n - 1) as nat) + seq![Stage::Render, Stage::Update]
    }
}

/// The stages that the schedule issues, one after another, read
/// `Setup, (Render, Update) × n` over `n` frames, with Setup only at index 0.
pub proof fn lemma_stage_order(n: nat)
    ensures
        frames_trace(n) == Seq::new(2 * n + 1, |i: int| stage_at(i as nat)),
        frames_trace(n)[0] == Stage::Setup,
        forall|i: int| 0 < i < frames_trace(n).len() ==> #[trigger] frames_trace(n)[i] != Stage::Setup,
    decreases n,
{
    if n > 0 {
        lemma_stage_order((n - 1) as nat);
    }
    assert(frames_trace(n) =~= Seq::new(2 * n + 1, |i: int| stage_at(i as nat)));
}

/// Decides which stage runs next. Setup runs once; then each frame runs Render
/// then Update; the close signal is read once per frame, after its Update.
pub struct Schedule {
    issued: u64,
    finished: bool,
}

impl Schedule {
    /// How many stages have been issued.
    pub closed spec fn issued_count(&self) -> nat {
        self.issued as nat
    }

    /// Whether the loop has ended.
    pub closed spec fn is_finished(&self) -> bool {
        self.finished
    }

    /// Whether a close signal given now ends the loop: only once a frame's Update
    /// has been issued.
    pub open spec fn at_frame_end(&self) -> bool {
        self.issued_count() >= 3 && self.issued_count() % 2 == 1
    }

    pub fn new() -> (r: Schedule)
        ensures
            r.issued_count() == 0,
            !r.is_finished(),
    {
        Schedule { issued: 0, finished: false }
    }

    pub fn issued(&self) -> (r: u64)
        ensures
            r == self.issued_count(),
    {
        self.issued
    }

    pub fn finished(&self) -> (r: bool)
        ensures
            r == self.is_finished(),
    {
        self.finished
    }

    /// The next stage to run, or `None` once the loop has ended. The close signal
    /// `close_requested` ends the loop when given after a frame's Update; at any
    /// other point it is not consulted.
    pub fn next_stage(&mut self, close_requested: bool) -> (r: Option<Stage>)
        requires
            old(self).issued_count() < u64::MAX,
        ensures
            ({
                let closes = old(self).is_finished() || (close_requested && old(self).at_frame_end());
                &&& closes ==> r is None && final(self).is_finished() && final(self).issued_count()
                    == old(self).issued_count()
                &&& !closes ==> r == Some(stage_at(old(self).issued_count()))
                    && !final(self).is_finished()
                    && final(self).issued_count() == old(self).issued_count() + 1
            }),
    {
        if self.finished || (close_requested && self.issued >= 3 && self.issued % 2 == 1) {
            self.finished = true;
            return None;
        }
        let s = if self.issued == 0 {
            Stage::Setup
        } else if self.issued % 2 == 1 {
            Stage::Render
        } else {
            Stage::Update
        };
        self.issued = self.issued + 1;
        Some(s)
    }
}

} // verus!
