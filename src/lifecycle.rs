//! The order of one engine call: every handle that the engine allocates, the
//! descriptor and the result, is released exactly once, after its contents
//! have been copied out, on the success path and on every failure path.
//!
//! The caller asks `next_action`, performs it, and reports back through
//! `engine_returned` (after `CallEngine`) or `performed` (after any other
//! action) until the action is `Return`.
use vstd::prelude::*;

verus! {

/// Where a call stands.
#[derive(Clone, Copy, Debug, PartialEq, Eq)]
pub enum Stage {
    /// The descriptor is allocated and filled; the engine has not run.
    Built,
    /// The engine has returned, with or without a result handle.
    Returned,
    /// The result's contents have been copied into owned values.
    Copied,
    /// The result handle has been released; the descriptor is still held.
    ResultReleased,
    /// No handle is held.
    Finished,
}

/// What the caller does next.
#[derive(Clone, Copy, Debug, PartialEq, Eq)]
pub enum Action {
    CallEngine,
    CopyResult,
    ReleaseResult,
    ReleaseDescriptor,
    Return,
}

/// The handles of one call and how often handles were allocated and released.
#[derive(Clone, Copy, Debug)]
pub struct Call {
    pub stage: Stage,
    /// The engine handed back a result handle (it was not null).
    pub result_present: bool,
    pub allocations: u8,
    pub releases: u8,
}

impl Call {
    /// The descriptor handle is held.
    pub open spec fn holds_descriptor(self) -> bool {
        !(self.stage is Finished)
    }

    /// The result handle is held.
    pub open spec fn holds_result(self) -> bool {
        self.result_present && (self.stage is Returned || self.stage is Copied)
    }

    /// The number of handles held.
    pub open spec fn held(self) -> nat {
        (if self.holds_descriptor() { 1nat } else { 0nat }) + (if self.holds_result() {
            1nat
        } else {
            0nat
        })
    }

    /// Every allocation is released or still held, and a call allocates at
    /// most a descriptor and a result.
    pub open spec fn wf(self) -> bool {
        &&& self.allocations == self.releases + self.held()
        &&& self.allocations <= 2
        &&& (self.stage is Built ==> !self.result_present)
        &&& (self.stage is Copied || self.stage is ResultReleased ==> self.result_present)
        &&& (self.stage is Built || self.stage is Returned || self.stage is Copied
            ==> self.releases == 0)
        &&& (self.stage is ResultReleased ==> self.releases == 1)
    }

    /// A call whose descriptor allocation succeeded (`allocated`) or failed.
    pub open spec fn begun(allocated: bool) -> Call {
        if allocated {
            Call { stage: Stage::Built, result_present: false, allocations: 1, releases: 0 }
        } else {
            Call { stage: Stage::Finished, result_present: false, allocations: 0, releases: 0 }
        }
    }

    /// The action that the call asks for.
    pub open spec fn next(self) -> Action {
        match self.stage {
            Stage::Built => Action::CallEngine,
            Stage::Returned => if self.result_present {
                Action::CopyResult
            } else {
                Action::ReleaseDescriptor
            },
            Stage::Copied => Action::ReleaseResult,
            Stage::ResultReleased => Action::ReleaseDescriptor,
            Stage::Finished => Action::Return,
        }
    }

    /// The call after the engine ran and returned a result handle or null.
    pub open spec fn after_return(self, present: bool) -> Call {
        Call {
            stage: Stage::Returned,
            result_present: present,
            allocations: if present { (self.allocations + 1) as u8 } else { self.allocations },
            releases: self.releases,
        }
    }

    /// The call after the action it asked for, other than `CallEngine`, was
    /// performed.
    pub open spec fn after(self) -> Call {
        match self.next() {
            Action::CopyResult => Call { stage: Stage::Copied, ..self },
            Action::ReleaseResult => Call {
                stage: Stage::ResultReleased,
                releases: (self.releases + 1) as u8,
                ..self
            },
            Action::ReleaseDescriptor => Call {
                stage: Stage::Finished,
                releases: (self.releases + 1) as u8,
                ..self
            },
            _ => self,
        }
    }

    /// How many actions remain before `Return`, once the engine has run.
    pub open spec fn remaining(self) -> nat {
        match self.stage {
            Stage::Built => 4,
            Stage::Returned => 3,
            Stage::Copied => 2,
            Stage::ResultReleased => 1,
            Stage::Finished => 0,
        }
    }

    /// The call once every action after the engine's return has been performed.
    pub open spec fn settle(self) -> Call
        decreases self.remaining(),
    {
        if self.stage is Finished || self.stage is Built {
            self
        } else {
            self.after().settle()
        }
    }

    /// A call, after its descriptor allocation succeeded or failed.
    pub fn begin(allocated: bool) -> (c: Call)
        ensures
            c == Call::begun(allocated),
            c.wf(),
    {
        if allocated {
            Call { stage: Stage::Built, result_present: false, allocations: 1, releases: 0 }
        } else {
            Call { stage: Stage::Finished, result_present: false, allocations: 0, releases: 0 }
        }
    }

    pub fn next_action(&self) -> (a: Action)
        ensures
            a == self.next(),
    {
        match self.stage {
            Stage::Built => Action::CallEngine,
            Stage::Returned => if self.result_present {
                Action::CopyResult
            } else {
                Action::ReleaseDescriptor
            },
            Stage::Copied => Action::ReleaseResult,
            Stage::ResultReleased => Action::ReleaseDescriptor,
            Stage::Finished => Action::Return,
        }
    }

    /// Records the engine's return: `present` when it handed back a result
    /// handle, which then counts as an allocation.
    pub fn engine_returned(&mut self, present: bool)
        requires
            old(self).wf(),
            old(self).stage is Built,
        ensures
            *final(self) == old(self).after_return(present),
            final(self).wf(),
    {
        if present {
            self.allocations = self.allocations + 1;
        }
        self.stage = Stage::Returned;
        self.result_present = present;
    }

    /// Records that the action asked for, other than `CallEngine`, was done.
    pub fn performed(&mut self)
        requires
            old(self).wf(),
            !(old(self).stage is Built),
        ensures
            *final(self) == old(self).after(),
            final(self).wf(),
            old(self).stage is Finished || final(self).remaining() < old(self).remaining(),
    {
        match self.next_action() {
            Action::CopyResult => {
                self.stage = Stage::Copied;
            },
            Action::ReleaseResult => {
                self.stage = Stage::ResultReleased;
                self.releases = self.releases + 1;
            },
            Action::ReleaseDescriptor => {
                self.stage = Stage::Finished;
                self.releases = self.releases + 1;
            },
            _ => {},
        }
    }
}

/// Every action after the engine's return keeps a well-formed call well formed.
proof fn lemma_settle_wf(c: Call)
    requires
        c.wf(),
    ensures
        c.settle().wf(),
        !(c.stage is Built) ==> c.settle().stage is Finished,
    decreases c.remaining(),
{
    if !(c.stage is Finished || c.stage is Built) {
        lemma_settle_wf(c.after());
    }
}

/// Whatever the engine does, a call that follows its actions to the end holds
/// no handle and has released exactly as many handles as were allocated: when
/// the descriptor allocation fails, when the engine returns null, and when it
/// returns a result.
pub proof fn lemma_every_call_balances(allocated: bool, present: bool)
    ensures
        ({
            let c = if allocated {
                Call::begun(true).after_return(present).settle()
            } else {
                Call::begun(false)
            };
            &&& c.stage is Finished
            &&& c.allocations == c.releases
        }),
{
    if allocated {
        lemma_settle_wf(Call::begun(true).after_return(present));
    }
}

} // verus!
