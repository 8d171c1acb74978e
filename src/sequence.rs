use vstd::prelude::*;

verus! {

/// Where a run over a directive sequence stands.
#[derive(Clone, Copy, Debug, PartialEq, Eq, Structural)]
pub enum Phase {
    /// The directive at the index is to be applied.
    Applying,
    /// The directive at the index was applied; the callback is to be invoked for it.
    Notifying,
    /// Every directive was applied and acknowledged.
    Finished,
    /// The directive at the index failed to apply.
    DirectiveFailed,
    /// The callback for the index failed.
    CallbackFailed,
}

/// What the caller is to do next.
#[derive(Clone, Copy, Debug, PartialEq, Eq, Structural)]
pub enum SeqAction {
    /// Apply the directive at this index.
    Apply(usize),
    /// Invoke the per-step callback with this index.
    Notify(usize),
    /// Nothing is left to do: the run succeeded.
    Finished,
    /// The run stopped at this index with an error.
    Stopped(usize),
}

/// The decisions of a run that applies directives one at a time, in order, and
/// invokes a callback after each one that applied; the first failure of either stops
/// the run.
pub struct Sequencer {
    pub total: usize,
    pub index: usize,
    pub phase: Phase,
    /// The indices for which the callback was invoked, in order.
    pub notified: Ghost<Seq<nat>>,
}

/// The indices `0..k` in order.
pub open spec fn first_indices(k: nat) -> Seq<nat> {
    Seq::new(k, |i: int| i as nat)
}

impl Sequencer {
    pub open spec fn wf(&self) -> bool {
        &&& self.index <= self.total
        &&& match self.phase {
            Phase::Applying => self.index < self.total && self.notified@ == first_indices(
                self.index as nat,
            ),
            Phase::Notifying => self.index < self.total && self.notified@ == first_indices(
                self.index as nat + 1,
            ),
            Phase::Finished => self.index == self.total && self.notified@ == first_indices(
                self.total as nat,
            ),
            Phase::DirectiveFailed => self.index < self.total && self.notified@ == first_indices(
                self.index as nat,
            ),
            Phase::CallbackFailed => self.index < self.total && self.notified@ == first_indices(
                self.index as nat + 1,
            ),
        }
    }

    /// The action that the current state asks for.
    pub open spec fn action_spec(&self) -> SeqAction {
        match self.phase {
            Phase::Applying => SeqAction::Apply(self.index),
            Phase::Notifying => SeqAction::Notify(self.index),
            Phase::Finished => SeqAction::Finished,
            _ => SeqAction::Stopped(self.index),
        }
    }

    /// A run over `total` directives, before anything was applied.
    pub fn new(total: usize) -> (r: Sequencer)
        ensures
            r.wf(),
            r.total == total,
            r.index == 0,
            r.phase == (if total == 0 { Phase::Finished } else { Phase::Applying }),
            r.notified@ == Seq::<nat>::empty(),
    {
        let r = Sequencer {
            total,
            index: 0,
            phase: if total == 0 { Phase::Finished } else { Phase::Applying },
            notified: Ghost(Seq::empty()),
        };
        assert(first_indices(0) =~= Seq::<nat>::empty());
        r
    }

    /// The action to perform now.
    pub fn action(&self) -> (r: SeqAction)
        ensures
            r == self.action_spec(),
    {
        match self.phase {
            Phase::Applying => SeqAction::Apply(self.index),
            Phase::Notifying => SeqAction::Notify(self.index),
            Phase::Finished => SeqAction::Finished,
            _ => SeqAction::Stopped(self.index),
        }
    }

    /// Takes the outcome of the current action and returns the next one. An applied
    /// directive is followed by the callback for its index; an acknowledged callback
    /// by the next directive, or the end; a failure of either stops the run for good.
    pub fn advance(&mut self, ok: bool) -> (r: SeqAction)
        requires
            old(self).wf(),
        ensures
            final(self).wf(),
            r == final(self).action_spec(),
            final(self).total == old(self).total,
            match old(self).phase {
                Phase::Applying => if ok {
                    final(self).phase == Phase::Notifying && final(self).index == old(self).index
                        && final(self).notified@ == old(self).notified@.push(old(self).index as nat)
                } else {
                    final(self).phase == Phase::DirectiveFailed && final(self).index == old(self).index
                        && final(self).notified@ == old(self).notified@
                },
                Phase::Notifying => if !ok {
                    final(self).phase == Phase::CallbackFailed && final(self).index == old(self).index
                        && final(self).notified@ == old(self).notified@
                } else if old(self).index + 1 < old(self).total {
                    final(self).phase == Phase::Applying && final(self).index == old(self).index + 1
                        && final(self).notified@ == old(self).notified@
                } else {
                    final(self).phase == Phase::Finished && final(self).index == old(self).total
                        && final(self).notified@ == old(self).notified@
                },
                _ => *final(self) == *old(self),
            },
    {
        match self.phase {
            Phase::Applying => {
                if ok {
                    self.phase = Phase::Notifying;
                    let ghost i = self.index as nat;
                    self.notified = Ghost(self.notified@.push(i));
                    assert(self.notified@ =~= first_indices(i + 1));
                } else {
                    self.phase = Phase::DirectiveFailed;
                }
            },
            Phase::Notifying => {
                if !ok {
                    self.phase = Phase::CallbackFailed;
                } else if self.index + 1 < self.total {
                    self.index = self.index + 1;
                    self.phase = Phase::Applying;
                } else {
                    self.index = self.total;
                    self.phase = Phase::Finished;
                }
            },
            _ => {},
        }
        self.action()
    }
}

/// When directive `k` fails to apply, the callback has been invoked exactly for the
/// indices `0..k`, each once and in order, and never for `k` or beyond.
pub proof fn lemma_callbacks_before_failure(s: Sequencer)
    requires
        s.wf(),
        s.phase == Phase::DirectiveFailed,
    ensures
        s.notified@ == first_indices(s.index as nat),
        forall|j: int| 0 <= j < s.notified@.len() ==> #[trigger] s.notified@[j] < s.index,
{
}

} // verus!
