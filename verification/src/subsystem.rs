//! A state-machine model of the hardware interrupt controller.
//!
//! The controller is the external collaborator that owns the lines: a
//! registration binds a correlation token to a line here, deliveries consult
//! it, and teardown removes the binding.  Its state is modelled explicitly so
//! that the lifecycle contracts — a token is issued once, keeps its meaning
//! for the life of the controller, and is silenced by exactly one
//! unregistration — can be stated over an abstract view and proved.

use vstd::prelude::*;

use crate::flags::IrqFlags;
use crate::flags::IRQF_SHARED;

verus! {

/// Why the controller refused to register a line.
#[derive(Clone, Copy, Debug, PartialEq, Eq, Structural)]
pub enum IrqError {
    /// The line number is outside the controller's range.
    InvalidLine,
    /// The line is already claimed and one of the two claims is exclusive.
    LineClaimed,
}

/// One registration slot of the controller.  Slots are never removed: a
/// correlation token is the slot's position plus one, so a token, once
/// issued, keeps its line and flags for the life of the controller, and
/// teardown merely clears `active`.
#[derive(Clone, Copy, Debug, PartialEq, Eq, Structural)]
pub struct Slot {
    /// The hardware line this slot is bound to.
    pub line: u32,
    /// The raw registration flags the binding was made with.
    pub flags: u64,
    /// Whether the binding is still in force.
    pub active: bool,
}

/// The abstract state of the controller: the line count, the slot table and
/// the per-line disable depth.
#[verifier::ext_equal]
pub struct SubsystemModel {
    /// Lines `0 .. num_lines` exist on this controller.
    pub num_lines: u32,
    /// The grow-only slot table; token `t` names `slots[t - 1]`.
    pub slots: Seq<Slot>,
    /// How many nested `disable` calls each line is under.
    pub depth: Seq<u64>,
}

impl SubsystemModel {
    /// The depth sequence covers every line, and every slot names a line the
    /// controller has.
    pub open spec fn wf(self) -> bool {
        &&& self.depth.len() == self.num_lines as int
        &&& forall|i: int|
            0 <= i < self.slots.len() ==> (#[trigger] self.slots[i]).line < self.num_lines
    }

    /// Whether `token` was ever issued by this controller.
    pub open spec fn token_valid(self, token: u64) -> bool {
        1 <= token && token <= self.slots.len()
    }

    /// The slot a token names.
    pub open spec fn slot_of(self, token: u64) -> Slot {
        self.slots[token - 1]
    }

    /// Whether the binding named by `token` is still in force.
    pub open spec fn registered(self, token: u64) -> bool {
        self.token_valid(token) && self.slot_of(token).active
    }

    /// The line a token was bound to.
    pub open spec fn line_of(self, token: u64) -> u32 {
        self.slot_of(token).line
    }

    /// The flags a token was bound with.
    pub open spec fn flags_of(self, token: u64) -> u64 {
        self.slot_of(token).flags
    }

    /// The disable depth of a line.
    pub open spec fn depth_of(self, line: u32) -> u64 {
        self.depth[line as int]
    }

    /// Whether an active binding on `line` rules out a new claim with
    /// `flags`: two claims may coexist only when both carry the shared bit.
    pub open spec fn claim_conflict(self, line: u32, flags: u64) -> bool {
        exists|i: int|
            0 <= i < self.slots.len() && (#[trigger] self.slots[i]).active
                && self.slots[i].line == line
                && (self.slots[i].flags & IRQF_SHARED == 0 || flags & IRQF_SHARED == 0)
    }

    /// Whether a registration request for `line` with `flags` succeeds.
    pub open spec fn reg_ok(self, line: u32, flags: u64) -> bool {
        line < self.num_lines && !self.claim_conflict(line, flags)
    }

    /// The error a failing registration request reports.
    pub open spec fn reg_err(self, line: u32, flags: u64) -> IrqError {
        if line >= self.num_lines {
            IrqError::InvalidLine
        } else {
            IrqError::LineClaimed
        }
    }

    /// The state after a successful registration: one more slot, active,
    /// bound to `line` with `flags`.
    pub open spec fn do_register(self, line: u32, flags: u64) -> SubsystemModel {
        SubsystemModel {
            slots: self.slots.push(Slot { line, flags, active: true }),
            ..self
        }
    }

    /// The state after tearing down the binding named by `token`: the slot
    /// keeps its line and flags but is no longer active.  An unknown token
    /// changes nothing.
    pub open spec fn do_unregister(self, token: u64) -> SubsystemModel {
        if self.token_valid(token) {
            SubsystemModel {
                slots: self.slots.update(
                    token - 1,
                    Slot { active: false, ..self.slots[token - 1] },
                ),
                ..self
            }
        } else {
            self
        }
    }

    /// The state after disabling a line once more: its depth grows by one,
    /// saturating at the counter's top.  An unknown line changes nothing.
    pub open spec fn do_disable(self, line: u32) -> SubsystemModel {
        if line < self.num_lines {
            SubsystemModel {
                depth: self.depth.update(
                    line as int,
                    if self.depth[line as int] < u64::MAX {
                        (self.depth[line as int] + 1) as u64
                    } else {
                        self.depth[line as int]
                    },
                ),
                ..self
            }
        } else {
            self
        }
    }

    /// The state after enabling a line once: its depth shrinks by one, and a
    /// line already enabled stays enabled.  An unknown line changes nothing.
    pub open spec fn do_enable(self, line: u32) -> SubsystemModel {
        if line < self.num_lines && self.depth[line as int] > 0 {
            SubsystemModel {
                depth: self.depth.update(line as int, (self.depth[line as int] - 1) as u64),
                ..self
            }
        } else {
            self
        }
    }
}

/// The hardware interrupt controller, holding the executable form of the
/// model: a fixed line count, the grow-only slot table, and one disable
/// depth per line.
pub struct HwSubsystem {
    num_lines: u32,
    slots: Vec<Slot>,
    depth: Vec<u64>,
}

impl View for HwSubsystem {
    type V = SubsystemModel;

    closed spec fn view(&self) -> SubsystemModel {
        SubsystemModel { num_lines: self.num_lines, slots: self.slots@, depth: self.depth@ }
    }
}

impl HwSubsystem {
    /// A fresh controller with `num_lines` lines, no bindings, and every
    /// line enabled.
    pub fn new(num_lines: u32) -> (s: Self)
        ensures
            s@.wf(),
            s@.num_lines == num_lines,
            s@.slots.len() == 0,
            forall|i: int| 0 <= i < num_lines ==> s@.depth[i] == 0,
    {
        let mut depth: Vec<u64> = Vec::new();
        let mut i: u32 = 0;
        while i < num_lines
            invariant
                i <= num_lines,
                depth.len() == i as int,
                forall|j: int| 0 <= j < i ==> depth@[j] == 0,
            decreases num_lines - i,
        {
            depth.push(0);
            i = i + 1;
        }
        HwSubsystem { num_lines, slots: Vec::new(), depth }
    }

    /// How many lines the controller has.
    pub fn num_lines(&self) -> (r: u32)
        ensures
            r == self@.num_lines,
    {
        self.num_lines
    }

    /// Whether the binding named by `token` is still in force.
    pub fn is_registered(&self, token: u64) -> (r: bool)
        ensures
            r == self@.registered(token),
    {
        if token >= 1 && token - 1 < self.slots.len() as u64 {
            self.slots[(token - 1) as usize].active
        } else {
            false
        }
    }

    /// The disable depth of a line; an unknown line reports zero.
    pub fn line_depth(&self, line: u32) -> (r: u64)
        requires
            self@.wf(),
        ensures
            line < self@.num_lines ==> r == self@.depth_of(line),
            line >= self@.num_lines ==> r == 0,
    {
        if line < self.num_lines {
            self.depth[line as usize]
        } else {
            0
        }
    }

    /// Register a binding on `line` with `flags`.  On success the issued
    /// correlation token comes back; the request is refused when the line is
    /// outside the controller's range or already claimed exclusively.
    pub fn register(&mut self, line: u32, flags: IrqFlags) -> (r: Result<u64, IrqError>)
        requires
            old(self)@.wf(),
            old(self)@.slots.len() < usize::MAX,
        ensures
            final(self)@.wf(),
            r is Ok <==> old(self)@.reg_ok(line, flags.spec_raw()),
            (r matches Ok(t) ==> {
                &&& t == old(self)@.slots.len() + 1
                &&& final(self)@ == old(self)@.do_register(line, flags.spec_raw())
                &&& final(self)@.registered(t)
                &&& final(self)@.line_of(t) == line
                &&& final(self)@.flags_of(t) == flags.spec_raw()
            }),
            (r matches Err(e) ==> {
                &&& final(self)@ == old(self)@
                &&& e == old(self)@.reg_err(line, flags.spec_raw())
            }),
    {
        if line >= self.num_lines {
            return Err(IrqError::InvalidLine);
        }
        let raw_flags = flags.raw();
        let mut i: usize = 0;
        let mut conflict: bool = false;
        while i < self.slots.len()
            invariant
                i <= self.slots.len(),
                raw_flags == flags.spec_raw(),
                conflict == exists|j: int|
                    0 <= j < i && (#[trigger] self.slots@[j]).active && self.slots@[j].line == line
                        && (self.slots@[j].flags & IRQF_SHARED == 0 || raw_flags & IRQF_SHARED
                        == 0),
            decreases self.slots.len() - i,
        {
            let s = self.slots[i];
            if s.active && s.line == line && (s.flags & IRQF_SHARED == 0 || raw_flags
                & IRQF_SHARED == 0) {
                conflict = true;
            }
            i = i + 1;
        }
        if conflict {
            return Err(IrqError::LineClaimed);
        }
        let token: u64 = self.slots.len() as u64 + 1;
        self.slots.push(Slot { line, flags: raw_flags, active: true });
        proof {
            assert(self@ =~= old(self)@.do_register(line, flags.spec_raw()));
        }
        Ok(token)
    }

    /// Tear down the binding named by `token`.  The slot keeps its line and
    /// flags, so the token's meaning survives; only its `active` mark is
    /// cleared.  An unknown token changes nothing.
    pub fn unregister(&mut self, token: u64)
        requires
            old(self)@.wf(),
        ensures
            final(self)@ == old(self)@.do_unregister(token),
            final(self)@.wf(),
            !final(self)@.registered(token),
    {
        if token >= 1 && token - 1 < self.slots.len() as u64 {
            let idx = (token - 1) as usize;
            self.slots[idx].active = false;
            proof {
                assert(self@ =~= old(self)@.do_unregister(token));
            }
        }
        proof {
            assert(self@ =~= old(self)@.do_unregister(token));
        }
    }

    /// Disable a line once more (nesting); the depth saturates rather than
    /// wraps.  An unknown line changes nothing.
    pub fn disable(&mut self, line: u32)
        requires
            old(self)@.wf(),
        ensures
            final(self)@ == old(self)@.do_disable(line),
            final(self)@.wf(),
    {
        if line < self.num_lines {
            let idx = line as usize;
            if self.depth[idx] < u64::MAX {
                self.depth[idx] = self.depth[idx] + 1;
            }
        }
        proof {
            assert(self@ =~= old(self)@.do_disable(line));
        }
    }

    /// Enable a line once; a line already fully enabled stays enabled.  An
    /// unknown line changes nothing.
    pub fn enable(&mut self, line: u32)
        requires
            old(self)@.wf(),
        ensures
            final(self)@ == old(self)@.do_enable(line),
            final(self)@.wf(),
    {
        if line < self.num_lines {
            let idx = line as usize;
            if self.depth[idx] > 0 {
                self.depth[idx] = self.depth[idx] - 1;
            }
        }
        proof {
            assert(self@ =~= old(self)@.do_enable(line));
        }
    }
}

/// Tearing a binding down a second time changes nothing: over the
/// registration's lifetime the controller sees the effect of exactly one
/// unregistration.
pub proof fn lemma_unregister_idempotent(m: SubsystemModel, token: u64)
    ensures
        m.do_unregister(token).do_unregister(token) == m.do_unregister(token),
{
    if m.token_valid(token) {
        assert(m.do_unregister(token).do_unregister(token) =~= m.do_unregister(token));
    }
}

/// After teardown the token is silent: the controller no longer holds the
/// binding in force, whatever it held before.
pub proof fn lemma_unregister_silences(m: SubsystemModel, token: u64)
    ensures
        !m.do_unregister(token).registered(token),
{
}

/// A correlation token's meaning, once published, never changes: every later
/// registration, teardown, disable or enable leaves the token's line and
/// flags exactly as they were issued.
pub proof fn lemma_token_binding_stable(
    m: SubsystemModel,
    token: u64,
    line: u32,
    flags: u64,
    other: u64,
)
    requires
        m.token_valid(token),
    ensures
        m.do_register(line, flags).token_valid(token),
        m.do_register(line, flags).line_of(token) == m.line_of(token),
        m.do_register(line, flags).flags_of(token) == m.flags_of(token),
        m.do_unregister(other).token_valid(token),
        m.do_unregister(other).line_of(token) == m.line_of(token),
        m.do_unregister(other).flags_of(token) == m.flags_of(token),
        m.do_disable(line).line_of(token) == m.line_of(token),
        m.do_disable(line).flags_of(token) == m.flags_of(token),
        m.do_enable(line).line_of(token) == m.line_of(token),
        m.do_enable(line).flags_of(token) == m.flags_of(token),
{
}

} // verus!
