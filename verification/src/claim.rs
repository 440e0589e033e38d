//! Opening the raw USB transport and claiming its interfaces.
//!
//! Right after the device re-enumerates, the kernel's HID driver races the
//! host for the interfaces. The procedure here therefore tries again and
//! again: find the device, open it, claim each interface of a set, and on a
//! failure close, pause and start over. The caller performs each operation and
//! reports how it went.

use vstd::prelude::*;

verus! {

/// The sets of interfaces that are tried, one after the other, on an opened
/// device.
#[derive(Debug, Clone, Copy, PartialEq, Eq, Structural)]
pub enum InterfaceSets {
    /// The command interface 3 alone.
    HidOnly,
    /// Interfaces 3, 1, 2, 0.
    All,
    /// First interface 3 alone, then 3, 1, 2, 0.
    HidThenAll,
}

/// How the transport is opened and claimed.
#[derive(Debug, Clone, Copy, PartialEq, Eq, Structural)]
pub struct ClaimPolicy {
    /// Number of rounds before giving up; at least one.
    pub attempts: u8,
    /// Milliseconds of each pause.
    pub pause_ms: u32,
    /// The interface sets to try on an opened device.
    pub sets: InterfaceSets,
    /// Detach the kernel driver from the command interface before the first
    /// claim.
    pub detach_first: bool,
    /// When a claim of the command interface is denied for lack of access,
    /// detach the kernel driver and claim once more.
    pub detach_on_denial: bool,
    /// Pause after a failed open, before the next set is tried.
    pub pause_after_open_failure: bool,
}

/// What is due in a round.
#[derive(Debug, Clone, Copy, PartialEq, Eq, Structural)]
pub enum ClaimPhase {
    /// Look for the device on the bus.
    Enumerate,
    /// Open the device.
    Open,
    /// Claim the current interface.
    Claim,
    /// Detach the kernel driver from the current interface.
    Detach,
    /// Claim the current interface after the detach.
    Reclaim,
    /// Drop the handle on which a claim failed.
    Close,
    /// Pause after a failed open.
    PauseThenNextSet,
    /// Pause at the end of a round.
    PauseThenNextRound,
}

/// The progress of the procedure.
#[derive(Debug, Clone, Copy, PartialEq, Eq, Structural)]
pub struct ClaimState {
    /// The round, counted from 1.
    pub round: u8,
    /// Index of the interface set in use.
    pub set: u8,
    /// Index of the current interface within the set.
    pub position: u8,
    /// What is due.
    pub phase: ClaimPhase,
}

/// An operation on the bus or the device.
#[derive(Debug, Clone, Copy, PartialEq, Eq, Structural)]
pub enum ClaimOperation {
    /// List the devices and pick the sensor by vendor and product.
    Enumerate,
    /// Open the device that was found.
    Open,
    /// Claim this interface.
    Claim(u8),
    /// Detach the kernel driver from this interface.
    Detach(u8),
    /// Drop the handle.
    Close,
    /// Wait this many milliseconds.
    Sleep(u32),
}

/// How an operation went.
#[derive(Debug, Clone, Copy, PartialEq, Eq, Structural)]
pub enum ClaimOutcome {
    /// It did what it should.
    Done,
    /// The bus was listed, but the sensor is not on it.
    Missing,
    /// The claim was denied for lack of access.
    Denied,
    /// It failed in any other way.
    Failed,
}

/// Where the procedure stands after an outcome.
#[derive(Debug, Clone, Copy, PartialEq, Eq, Structural)]
pub enum ClaimVerdict {
    /// More is to be done.
    Continue(ClaimState),
    /// Every interface of a set is claimed: the handle is ready.
    Claimed,
    /// The bus could not be listed: the procedure fails at once.
    EnumerationFailed,
    /// No round is left: the procedure fails.
    Exhausted,
}

impl ClaimPolicy {
    /// Number of interface sets.
    pub open spec fn set_count(self) -> int {
        if self.sets == InterfaceSets::HidThenAll {
            2
        } else {
            1
        }
    }

    /// Number of interfaces in set `set`.
    pub open spec fn set_len(self, set: int) -> int {
        if self.sets == InterfaceSets::All || (self.sets == InterfaceSets::HidThenAll && set
            == 1) {
            4
        } else {
            1
        }
    }

    /// The interface at `position` of set `set`: 3 alone, or 3, 1, 2, 0.
    pub open spec fn interface(self, set: int, position: int) -> u8 {
        if self.set_len(set) == 1 || position == 0 {
            3
        } else if position == 1 {
            1
        } else if position == 2 {
            2
        } else {
            0
        }
    }

    /// The policy of the main sequence: twenty rounds with pauses of 300 ms,
    /// no detach up front, a pause after a failed open. With
    /// `claim_all_interfaces` the one set is 3, 1, 2, 0; without it interface
    /// 3 alone is tried first and the four after it.
    pub open spec fn spec_main(claim_all_interfaces: bool, allow_detach_fallback: bool) -> ClaimPolicy {
        ClaimPolicy {
            attempts: 20,
            pause_ms: 300,
            sets: if claim_all_interfaces {
                InterfaceSets::All
            } else {
                InterfaceSets::HidThenAll
            },
            detach_first: false,
            detach_on_denial: allow_detach_fallback,
            pause_after_open_failure: true,
        }
    }

    /// The policy of a warm-up cycle: ten rounds with pauses of 500 ms, the
    /// kernel driver detached before interface 3 is claimed.
    pub open spec fn spec_warm_up() -> ClaimPolicy {
        ClaimPolicy {
            attempts: 10,
            pause_ms: 500,
            sets: InterfaceSets::HidOnly,
            detach_first: true,
            detach_on_denial: false,
            pause_after_open_failure: false,
        }
    }

    /// The policy of the main sequence.
    pub fn main(claim_all_interfaces: bool, allow_detach_fallback: bool) -> (p: ClaimPolicy)
        ensures
            p == Self::spec_main(claim_all_interfaces, allow_detach_fallback),
    {
        ClaimPolicy {
            attempts: 20,
            pause_ms: 300,
            sets: if claim_all_interfaces {
                InterfaceSets::All
            } else {
                InterfaceSets::HidThenAll
            },
            detach_first: false,
            detach_on_denial: allow_detach_fallback,
            pause_after_open_failure: true,
        }
    }

    /// The policy of a warm-up cycle.
    pub fn warm_up() -> (p: ClaimPolicy)
        ensures
            p == Self::spec_warm_up(),
    {
        ClaimPolicy {
            attempts: 10,
            pause_ms: 500,
            sets: InterfaceSets::HidOnly,
            detach_first: true,
            detach_on_denial: false,
            pause_after_open_failure: false,
        }
    }

    fn exec_set_count(&self) -> (n: u8)
        ensures
            n == self.set_count(),
    {
        match self.sets {
            InterfaceSets::HidThenAll => 2,
            _ => 1,
        }
    }

    fn exec_set_len(&self, set: u8) -> (n: u8)
        ensures
            n == self.set_len(set as int),
    {
        match self.sets {
            InterfaceSets::All => 4,
            InterfaceSets::HidThenAll => if set == 1 {
                4
            } else {
                1
            },
            InterfaceSets::HidOnly => 1,
        }
    }

    fn exec_interface(&self, set: u8, position: u8) -> (i: u8)
        ensures
            i == self.interface(set as int, position as int),
    {
        if self.exec_set_len(set) == 1 || position == 0 {
            3
        } else if position == 1 {
            1
        } else if position == 2 {
            2
        } else {
            0
        }
    }
}

/// The state in which the current interface of `state` has just been claimed:
/// the next interface of the set is due, or the set is complete.
pub open spec fn after_claim(policy: ClaimPolicy, state: ClaimState) -> ClaimVerdict {
    if state.position + 1 >= policy.set_len(state.set as int) {
        ClaimVerdict::Claimed
    } else {
        ClaimVerdict::Continue(
            ClaimState {
                round: state.round,
                set: state.set,
                position: (state.position + 1) as u8,
                phase: ClaimPhase::Claim,
            },
        )
    }
}

/// The state in which the current set of `state` has been given up: the next
/// set is opened, or the round ends with a pause.
pub open spec fn after_set(policy: ClaimPolicy, state: ClaimState) -> ClaimVerdict {
    if state.set + 1 < policy.set_count() {
        ClaimVerdict::Continue(
            ClaimState {
                round: state.round,
                set: (state.set + 1) as u8,
                position: 0,
                phase: ClaimPhase::Open,
            },
        )
    } else {
        ClaimVerdict::Continue(
            ClaimState {
                round: state.round,
                set: state.set,
                position: 0,
                phase: ClaimPhase::PauseThenNextRound,
            },
        )
    }
}

/// `state` with another phase.
pub open spec fn in_phase(state: ClaimState, phase: ClaimPhase) -> ClaimState {
    ClaimState { round: state.round, set: state.set, position: state.position, phase }
}

impl ClaimState {
    /// Holds for every state that `begin` and `advance` give out: the round
    /// is one of the policy's, and set and position name an interface.
    pub open spec fn wf(self, policy: ClaimPolicy) -> bool {
        &&& 1 <= self.round <= policy.attempts
        &&& self.set < policy.set_count()
        &&& self.position < policy.set_len(self.set as int)
    }

    /// The operation that is due in this state.
    pub open spec fn spec_due(self, policy: ClaimPolicy) -> ClaimOperation {
        let interface = policy.interface(self.set as int, self.position as int);
        match self.phase {
            ClaimPhase::Enumerate => ClaimOperation::Enumerate,
            ClaimPhase::Open => ClaimOperation::Open,
            ClaimPhase::Claim => ClaimOperation::Claim(interface),
            ClaimPhase::Detach => ClaimOperation::Detach(interface),
            ClaimPhase::Reclaim => ClaimOperation::Claim(interface),
            ClaimPhase::Close => ClaimOperation::Close,
            ClaimPhase::PauseThenNextSet => ClaimOperation::Sleep(policy.pause_ms),
            ClaimPhase::PauseThenNextRound => ClaimOperation::Sleep(policy.pause_ms),
        }
    }

    /// Where the procedure stands after the due operation ended with
    /// `outcome`.
    ///
    /// A bus that cannot be listed fails the procedure; a bus without the
    /// sensor ends the round. A device that cannot be opened costs the set.
    /// A claim that succeeds leads to the next interface, and the last one of
    /// a set completes the procedure. A claim of interface 3 that is denied
    /// for lack of access is tried once more after a detach, if the policy
    /// allows it; any other failed claim costs the set, and the handle is
    /// dropped. After the last set the round ends with a pause, and after the
    /// last round the procedure is exhausted.
    pub open spec fn spec_advance(self, policy: ClaimPolicy, outcome: ClaimOutcome) -> ClaimVerdict {
        let interface = policy.interface(self.set as int, self.position as int);
        match self.phase {
            ClaimPhase::Enumerate => match outcome {
                ClaimOutcome::Done => ClaimVerdict::Continue(
                    ClaimState {
                        round: self.round,
                        set: 0,
                        position: 0,
                        phase: ClaimPhase::Open,
                    },
                ),
                ClaimOutcome::Missing => ClaimVerdict::Continue(
                    in_phase(self, ClaimPhase::PauseThenNextRound),
                ),
                _ => ClaimVerdict::EnumerationFailed,
            },
            ClaimPhase::Open => if outcome == ClaimOutcome::Done {
                ClaimVerdict::Continue(
                    ClaimState {
                        round: self.round,
                        set: self.set,
                        position: 0,
                        phase: if policy.detach_first {
                            ClaimPhase::Detach
                        } else {
                            ClaimPhase::Claim
                        },
                    },
                )
            } else if policy.pause_after_open_failure {
                ClaimVerdict::Continue(in_phase(self, ClaimPhase::PauseThenNextSet))
            } else {
                after_set(policy, self)
            },
            ClaimPhase::Claim => match outcome {
                ClaimOutcome::Done => after_claim(policy, self),
                ClaimOutcome::Denied => if interface == 3 && policy.detach_on_denial {
                    ClaimVerdict::Continue(in_phase(self, ClaimPhase::Detach))
                } else {
                    ClaimVerdict::Continue(in_phase(self, ClaimPhase::Close))
                },
                _ => ClaimVerdict::Continue(in_phase(self, ClaimPhase::Close)),
            },
            ClaimPhase::Detach => ClaimVerdict::Continue(in_phase(self, ClaimPhase::Reclaim)),
            ClaimPhase::Reclaim => if outcome == ClaimOutcome::Done {
                after_claim(policy, self)
            } else {
                ClaimVerdict::Continue(in_phase(self, ClaimPhase::Close))
            },
            ClaimPhase::Close => after_set(policy, self),
            ClaimPhase::PauseThenNextSet => after_set(policy, self),
            ClaimPhase::PauseThenNextRound => if self.round < policy.attempts {
                ClaimVerdict::Continue(
                    ClaimState {
                        round: (self.round + 1) as u8,
                        set: 0,
                        position: 0,
                        phase: ClaimPhase::Enumerate,
                    },
                )
            } else {
                ClaimVerdict::Exhausted
            },
        }
    }

    /// An upper bound on the number of operations that are still to come.
    pub open spec fn budget(self, policy: ClaimPolicy) -> int {
        let in_set: int = match self.phase {
            ClaimPhase::Enumerate => 0,
            ClaimPhase::Open => 16,
            ClaimPhase::Claim => 3 * (4 - self.position) + 2,
            ClaimPhase::Detach => 3 * (4 - self.position) + 1,
            ClaimPhase::Reclaim => 3 * (4 - self.position),
            ClaimPhase::Close => 1,
            ClaimPhase::PauseThenNextSet => 1,
            ClaimPhase::PauseThenNextRound => 0,
        };
        let in_round: int = match self.phase {
            ClaimPhase::Enumerate => 36,
            ClaimPhase::PauseThenNextRound => 0,
            _ => (policy.set_count() - 1 - self.set) * 17 + in_set,
        };
        (policy.attempts - self.round) * 40 + in_round + 1
    }

    /// The state at the start of the procedure.
    pub fn begin() -> (s: ClaimState)
        ensures
            s == (ClaimState { round: 1, set: 0, position: 0, phase: ClaimPhase::Enumerate }),
    {
        ClaimState { round: 1, set: 0, position: 0, phase: ClaimPhase::Enumerate }
    }

    /// The operation to perform now.
    pub fn due(&self, policy: &ClaimPolicy) -> (op: ClaimOperation)
        ensures
            op == self.spec_due(*policy),
    {
        match self.phase {
            ClaimPhase::Enumerate => ClaimOperation::Enumerate,
            ClaimPhase::Open => ClaimOperation::Open,
            ClaimPhase::Claim => ClaimOperation::Claim(
                policy.exec_interface(self.set, self.position),
            ),
            ClaimPhase::Detach => ClaimOperation::Detach(
                policy.exec_interface(self.set, self.position),
            ),
            ClaimPhase::Reclaim => ClaimOperation::Claim(
                policy.exec_interface(self.set, self.position),
            ),
            ClaimPhase::Close => ClaimOperation::Close,
            ClaimPhase::PauseThenNextSet => ClaimOperation::Sleep(policy.pause_ms),
            ClaimPhase::PauseThenNextRound => ClaimOperation::Sleep(policy.pause_ms),
        }
    }

    fn claimed_one(self, policy: &ClaimPolicy) -> (v: ClaimVerdict)
        requires
            self.wf(*policy),
        ensures
            v == after_claim(*policy, self),
    {
        if self.position + 1 >= policy.exec_set_len(self.set) {
            ClaimVerdict::Claimed
        } else {
            ClaimVerdict::Continue(
                ClaimState {
                    round: self.round,
                    set: self.set,
                    position: self.position + 1,
                    phase: ClaimPhase::Claim,
                },
            )
        }
    }

    fn gave_up_set(self, policy: &ClaimPolicy) -> (v: ClaimVerdict)
        requires
            self.wf(*policy),
        ensures
            v == after_set(*policy, self),
    {
        if self.set + 1 < policy.exec_set_count() {
            ClaimVerdict::Continue(
                ClaimState {
                    round: self.round,
                    set: self.set + 1,
                    position: 0,
                    phase: ClaimPhase::Open,
                },
            )
        } else {
            ClaimVerdict::Continue(
                ClaimState {
                    round: self.round,
                    set: self.set,
                    position: 0,
                    phase: ClaimPhase::PauseThenNextRound,
                },
            )
        }
    }

    fn with_phase(self, phase: ClaimPhase) -> (s: ClaimState)
        ensures
            s == in_phase(self, phase),
    {
        ClaimState { round: self.round, set: self.set, position: self.position, phase }
    }

    /// Takes in the outcome of the operation that was due and says where the
    /// procedure stands.
    pub fn advance(self, policy: &ClaimPolicy, outcome: ClaimOutcome) -> (v: ClaimVerdict)
        requires
            self.wf(*policy),
        ensures
            v == self.spec_advance(*policy, outcome),
            v matches ClaimVerdict::Continue(next) ==> next.wf(*policy) && 0 <= next.budget(*policy)
                < self.budget(*policy),
    {
        match self.phase {
            ClaimPhase::Enumerate => match outcome {
                ClaimOutcome::Done => ClaimVerdict::Continue(
                    ClaimState {
                        round: self.round,
                        set: 0,
                        position: 0,
                        phase: ClaimPhase::Open,
                    },
                ),
                ClaimOutcome::Missing => ClaimVerdict::Continue(
                    self.with_phase(ClaimPhase::PauseThenNextRound),
                ),
                _ => ClaimVerdict::EnumerationFailed,
            },
            ClaimPhase::Open => match outcome {
                ClaimOutcome::Done => ClaimVerdict::Continue(
                    ClaimState {
                        round: self.round,
                        set: self.set,
                        position: 0,
                        phase: if policy.detach_first {
                            ClaimPhase::Detach
                        } else {
                            ClaimPhase::Claim
                        },
                    },
                ),
                _ => if policy.pause_after_open_failure {
                    ClaimVerdict::Continue(self.with_phase(ClaimPhase::PauseThenNextSet))
                } else {
                    self.gave_up_set(policy)
                },
            },
            ClaimPhase::Claim => match outcome {
                ClaimOutcome::Done => self.claimed_one(policy),
                ClaimOutcome::Denied => {
                    if policy.exec_interface(self.set, self.position) == 3
                        && policy.detach_on_denial {
                        ClaimVerdict::Continue(self.with_phase(ClaimPhase::Detach))
                    } else {
                        ClaimVerdict::Continue(self.with_phase(ClaimPhase::Close))
                    }
                },
                _ => ClaimVerdict::Continue(self.with_phase(ClaimPhase::Close)),
            },
            ClaimPhase::Detach => ClaimVerdict::Continue(self.with_phase(ClaimPhase::Reclaim)),
            ClaimPhase::Reclaim => match outcome {
                ClaimOutcome::Done => self.claimed_one(policy),
                _ => ClaimVerdict::Continue(self.with_phase(ClaimPhase::Close)),
            },
            ClaimPhase::Close => self.gave_up_set(policy),
            ClaimPhase::PauseThenNextSet => self.gave_up_set(policy),
            ClaimPhase::PauseThenNextRound => {
                if self.round < policy.attempts {
                    ClaimVerdict::Continue(
                        ClaimState {
                            round: self.round + 1,
                            set: 0,
                            position: 0,
                            phase: ClaimPhase::Enumerate,
                        },
                    )
                } else {
                    ClaimVerdict::Exhausted
                }
            },
        }
    }
}

} // verus!
