use crate::error::MotorError;
use crate::step_table::{coil_level, pattern_at, traversal, COILS};
use vstd::arithmetic::div_mod::lemma_fundamental_div_mod_converse;
use vstd::prelude::*;

verus! {

/// Pause after each pattern, in milliseconds.
pub const STEP_DELAY_MS: u64 = 2;

/// Drive actions per pattern: one write per coil, then a pause.
const ACTIONS_PER_PATTERN: u64 = 5;

/// Drive actions per traversal of the table.
const ACTIONS_PER_CYCLE: u64 = 40;

/// What the host has to do next for a motion in progress.
#[derive(Clone, Copy, Debug, PartialEq, Eq)]
pub enum Action {
    /// Set one coil pin to a level, then report whether the write worked.
    SetPin { pin: i32, level: bool },
    /// Sleep for this many milliseconds, then report back.
    Sleep { millis: u64 },
    /// The motion is over, with this result.
    Finish { result: Result<(), MotorError> },
}

/// The action at position `pos` of the drive phase: for each pattern, the
/// four coil writes of that pattern and then a pause.
pub open spec fn drive_action(pins: Seq<i32>, forward: bool, pos: int) -> Action {
    let slot = pos % 5;
    let pattern = pattern_at(forward, (pos / 5) % 8);
    if slot < 4 {
        Action::SetPin { pin: pins[slot], level: pattern[slot] }
    } else {
        Action::Sleep { millis: STEP_DELAY_MS }
    }
}

/// A motion of `count` traversals of the half-step table, run one action at
/// a time.
///
/// A motion first drives the coils through the table. It then writes every
/// coil low, also when a write of the drive failed: a fault never leaves a
/// coil energised by choice. Each cleanup write is attempted even when an
/// earlier one failed.
pub struct Motion {
    pins: [i32; 4],
    count: u32,
    forward: bool,
    done: u64,
    cleaned: usize,
    drive_failed: bool,
    cleanup_failed: bool,
    /// Coil levels as far as the reported outcomes tell: `None` until a
    /// write to that coil has worked, and again after one failed.
    levels: Ghost<Seq<Option<bool>>>,
}

impl Motion {
    pub closed spec fn pins(&self) -> Seq<i32> {
        self.pins@
    }

    pub closed spec fn count(&self) -> nat {
        self.count as nat
    }

    pub closed spec fn forward(&self) -> bool {
        self.forward
    }

    /// Drive actions performed so far.
    pub closed spec fn done(&self) -> nat {
        self.done as nat
    }

    /// Cleanup writes attempted so far.
    pub closed spec fn cleaned(&self) -> nat {
        self.cleaned as nat
    }

    pub closed spec fn drive_failed(&self) -> bool {
        self.drive_failed
    }

    pub closed spec fn cleanup_failed(&self) -> bool {
        self.cleanup_failed
    }

    /// The coil levels as far as the reported outcomes tell, `in_1` first.
    pub closed spec fn levels(&self) -> Seq<Option<bool>> {
        self.levels@
    }

    /// A fresh motion of `count` traversals in one direction on these pins.
    pub open spec fn is_start(&self, pins: Seq<i32>, count: nat, forward: bool) -> bool {
        &&& self.pins() == pins
        &&& self.count() == count
        &&& self.forward() == forward
        &&& self.done() == 0
        &&& self.cleaned() == 0
        &&& !self.drive_failed()
        &&& !self.cleanup_failed()
        &&& self.levels() == seq![None::<bool>, None, None, None]
    }

    /// Number of actions in the drive phase.
    pub open spec fn drive_len(&self) -> nat {
        self.count() * 40
    }

    pub open spec fn in_drive(&self) -> bool {
        !self.drive_failed() && self.done() < self.drive_len()
    }

    pub open spec fn in_cleanup(&self) -> bool {
        !self.in_drive() && self.cleaned() < 4
    }

    pub open spec fn is_finished(&self) -> bool {
        !self.in_drive() && self.cleaned() >= 4
    }

    /// The result the motion ends with: a hardware fault if any write failed.
    pub open spec fn outcome(&self) -> Result<(), MotorError> {
        if self.drive_failed() || self.cleanup_failed() {
            Err(MotorError::HardwareIo)
        } else {
            Ok(())
        }
    }

    pub open spec fn next_action(&self) -> Action {
        if self.in_drive() {
            drive_action(self.pins(), self.forward(), self.done() as int)
        } else if self.in_cleanup() {
            Action::SetPin { pin: self.pins()[self.cleaned() as int], level: false }
        } else {
            Action::Finish { result: self.outcome() }
        }
    }

    /// The coil that the next action writes, when it is a write.
    pub open spec fn next_coil(&self) -> int {
        if self.in_drive() {
            self.done() as int % 5
        } else {
            self.cleaned() as int
        }
    }

    /// The known coil levels once the next action has been reported with
    /// outcome `ok`.
    pub open spec fn levels_after(&self, ok: bool) -> Seq<Option<bool>> {
        match self.next_action() {
            Action::SetPin { pin, level } => self.levels().update(
                self.next_coil(),
                if ok {
                    Some(level)
                } else {
                    None
                },
            ),
            _ => self.levels(),
        }
    }

    /// Actions left before the motion finishes, when no write fails.
    pub open spec fn remaining(&self) -> nat {
        if self.in_drive() {
            (self.drive_len() - self.done()) as nat + 4
        } else if self.cleaned() < 4 {
            (4 - self.cleaned()) as nat
        } else {
            0
        }
    }

    pub open spec fn wf(&self) -> bool {
        &&& self.pins().len() == 4
        &&& self.done() <= self.drive_len()
        &&& self.cleaned() <= 4
        &&& self.cleaned() > 0 ==> !self.in_drive()
        &&& self.levels().len() == 4
        &&& !self.cleanup_failed() ==> forall|c: int|
            0 <= c < self.cleaned() ==> #[trigger] self.levels()[c] == Some(false)
    }

    /// Starts a motion of `count` traversals of the table on `pins`
    /// (`in_1` to `in_4`), forward or in reverse.
    pub fn new(pins: [i32; 4], count: u32, forward: bool) -> (r: Motion)
        ensures
            r.wf(),
            r.is_start(pins@, count as nat, forward),
    {
        let ghost unknown = seq![None::<bool>, None, None, None];
        Motion {
            pins,
            count,
            forward,
            done: 0,
            cleaned: 0,
            drive_failed: false,
            cleanup_failed: false,
            levels: Ghost(unknown),
        }
    }

    fn driving(&self) -> (r: bool)
        ensures
            r == self.in_drive(),
    {
        !self.drive_failed && self.done < (self.count as u64) * ACTIONS_PER_CYCLE
    }

    /// Whether the motion is over; the host stops once it is.
    pub fn finished(&self) -> (r: bool)
        ensures
            r == self.is_finished(),
    {
        !self.driving() && self.cleaned >= COILS
    }

    /// What the host must do next.
    pub fn action(&self) -> (r: Action)
        requires
            self.wf(),
        ensures
            r == self.next_action(),
    {
        if self.driving() {
            let slot = (self.done % ACTIONS_PER_PATTERN) as usize;
            if slot < COILS {
                let index = ((self.done / ACTIONS_PER_PATTERN) % 8) as usize;
                Action::SetPin { pin: self.pins[slot], level: coil_level(self.forward, index, slot) }
            } else {
                Action::Sleep { millis: STEP_DELAY_MS }
            }
        } else if self.cleaned < COILS {
            Action::SetPin { pin: self.pins[self.cleaned], level: false }
        } else if self.drive_failed || self.cleanup_failed {
            Action::Finish { result: Err(MotorError::HardwareIo) }
        } else {
            Action::Finish { result: Ok(()) }
        }
    }

    /// Records that the host performed the current action; `ok` is false
    /// when it was a pin write that failed. A failed drive write ends the
    /// drive phase; a failed cleanup write does not stop the cleanup.
    pub fn advance(&mut self, ok: bool)
        requires
            old(self).wf(),
        ensures
            final(self).wf(),
            final(self).pins() == old(self).pins(),
            final(self).count() == old(self).count(),
            final(self).forward() == old(self).forward(),
            final(self).levels() == old(self).levels_after(ok),
            old(self).in_drive() ==> {
                &&& final(self).cleaned() == old(self).cleaned()
                &&& final(self).cleanup_failed() == old(self).cleanup_failed()
                &&& if old(self).next_action() is SetPin && !ok {
                    final(self).drive_failed() && final(self).done() == old(self).done()
                } else {
                    !final(self).drive_failed() && final(self).done() == old(self).done() + 1
                }
            },
            old(self).in_cleanup() ==> {
                &&& final(self).done() == old(self).done()
                &&& final(self).drive_failed() == old(self).drive_failed()
                &&& final(self).cleaned() == old(self).cleaned() + 1
                &&& final(self).cleanup_failed() == (old(self).cleanup_failed() || !ok)
            },
            old(self).is_finished() ==> *final(self) == *old(self),
            !old(self).is_finished() ==> final(self).remaining() < old(self).remaining(),
    {
        if self.driving() {
            let slot = (self.done % ACTIONS_PER_PATTERN) as usize;
            if slot < COILS {
                let index = ((self.done / ACTIONS_PER_PATTERN) % 8) as usize;
                let level = coil_level(self.forward, index, slot);
                if ok {
                    let ghost written = self.levels@.update(slot as int, Some(level));
                    self.levels = Ghost(written);
                    self.done = self.done + 1;
                } else {
                    let ghost written = self.levels@.update(slot as int, None);
                    self.levels = Ghost(written);
                    self.drive_failed = true;
                }
            } else {
                self.done = self.done + 1;
            }
        } else if self.cleaned < COILS {
            let ghost c = self.cleaned as int;
            let ghost written = self.levels@.update(
                c,
                if ok {
                    Some(false)
                } else {
                    None
                },
            );
            self.levels = Ghost(written);
            if !ok {
                self.cleanup_failed = true;
            }
            self.cleaned = self.cleaned + 1;
        }
    }
}

/// A finished motion has written every coil low, whether or not a write
/// failed on the way; and when none of those final writes failed, all four
/// coils are known to be off.
pub proof fn lemma_finished_coils_off(m: Motion)
    requires
        m.wf(),
        m.is_finished(),
    ensures
        m.cleaned() == 4,
        !m.cleanup_failed() ==> m.levels() == seq![Some(false), Some(false), Some(false), Some(false)],
{
    if !m.cleanup_failed() {
        assert(m.levels()[0] == Some(false));
        assert(m.levels()[1] == Some(false));
        assert(m.levels()[2] == Some(false));
        assert(m.levels()[3] == Some(false));
        assert(m.levels() =~= seq![Some(false), Some(false), Some(false), Some(false)]);
    }
}

/// A motion of zero traversals drives no pattern at all: in every state its
/// only writes are the four that switch the coils off, in order, and then it
/// finishes.
pub proof fn lemma_zero_cycles_only_low_writes(m: Motion)
    requires
        m.wf(),
        m.count() == 0,
    ensures
        !m.in_drive(),
        m.remaining() == 4 - m.cleaned(),
        m.cleaned() < 4 ==> m.next_action() == (Action::SetPin {
            pin: m.pins()[m.cleaned() as int],
            level: false,
        }),
        m.cleaned() == 4 ==> m.next_action() is Finish,
{
}

/// Each write of the drive phase puts on its coil the level of the current
/// pattern of the traversal: pattern `k` is written by drive actions `5k` to
/// `5k + 3`, one coil each, and action `5k + 4` is the pause after it.
pub proof fn lemma_drive_follows_traversal(m: Motion)
    requires
        m.wf(),
        m.in_drive(),
    ensures
        ({
            let k = m.done() as int / 5;
            let slot = m.done() as int % 5;
            &&& 0 <= k < traversal(m.count(), m.forward()).len()
            &&& slot < 4 ==> m.next_action() == (Action::SetPin {
                pin: m.pins()[slot],
                level: traversal(m.count(), m.forward())[k][slot],
            })
            &&& slot == 4 ==> m.next_action() == (Action::Sleep { millis: STEP_DELAY_MS })
        }),
{
    let d = m.done() as int;
    lemma_fundamental_div_mod_converse(d, 5, d / 5, d % 5);
    assert(d / 5 < m.count() * 8) by (nonlinear_arith)
        requires
            d == (d / 5) * 5 + d % 5,
            0 <= d % 5 < 5,
            d < m.count() * 40,
    ;
}

} // verus!
