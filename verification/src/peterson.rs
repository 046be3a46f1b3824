use vstd::prelude::*;
use std::sync::atomic::{AtomicBool, AtomicUsize};

verus! {

/// One of the two parties that share a channel's buffer.
#[derive(Debug, Clone, Copy, PartialEq, Eq, Structural)]
pub enum Side {
    Producer,
    Consumer,
}

/// The value of `turn` by which `side` lets the other party go first:
/// the producer writes 1, the consumer writes 0.
pub open spec fn spec_yield_turn(side: Side) -> usize {
    match side {
        Side::Producer => 1,
        Side::Consumer => 0,
    }
}

/// The value of `turn` by which `side` lets the other party go first.
pub fn yield_turn(side: Side) -> (turn: usize)
    ensures
        turn == spec_yield_turn(side),
{
    match side {
        Side::Producer => 1,
        Side::Consumer => 0,
    }
}

/// Whether a waiting `side` that reads `turn` may go in on that reading
/// alone: the turn is no longer the value by which it let the other go first.
pub open spec fn spec_turn_lets_in(side: Side, turn: usize) -> bool {
    turn != spec_yield_turn(side)
}

/// Whether a waiting party that reads the other party's flag may go in on
/// that reading: the flag is down.
pub open spec fn spec_flag_lets_in(other_raised: bool) -> bool {
    !other_raised
}

/// Decides whether a waiting `side` that read `turn` goes in on that reading.
pub fn turn_lets_in(side: Side, turn: usize) -> (go: bool)
    ensures
        go == spec_turn_lets_in(side, turn),
{
    turn != yield_turn(side)
}

/// Decides whether a waiting party that read the other party's flag goes in
/// on that reading.
pub fn flag_lets_in(other_raised: bool) -> (go: bool)
    ensures
        go == spec_flag_lets_in(other_raised),
{
    !other_raised
}

/// One round of waiting: what was read, and whether the party goes in.
#[derive(Debug, Clone, Copy, PartialEq, Eq)]
pub struct EntryCheck {
    /// The value read from `turn`.
    pub turn_seen: usize,
    /// The value read from the other party's flag; it is read only when the
    /// turn alone does not let the party in.
    pub other_seen: Option<bool>,
    /// Whether the party goes in.
    pub go: bool,
}

impl EntryCheck {
    /// The round's decision follows from what it read, as the protocol's
    /// steps `Yielded` and `CheckingOther` decide.
    pub open spec fn decided(self, side: Side) -> bool {
        &&& self.other_seen is None <==> spec_turn_lets_in(side, self.turn_seen)
        &&& self.go == (spec_turn_lets_in(side, self.turn_seen) || (self.other_seen matches Some(
            r,
        ) && spec_flag_lets_in(r)))
    }
}

/// Stores `true` into `flag`. Calls `AtomicBool::store` with sequentially
/// consistent ordering, which neither panics nor opens an invariant; nothing
/// is claimed of the stored value, which other threads may read at any time.
#[verifier::external_body]
fn raise_flag(flag: &AtomicBool)
    opens_invariants none
    no_unwind
{
    flag.store(true, std::sync::atomic::Ordering::SeqCst);
}

/// Flags to guard the shared buffer with Peterson's protocol, and the flag
/// that tells a party that the other one has gone.
#[derive(Debug)]
pub struct AccessFlags {
    /// Raised while the producer wants to enter or is inside.
    prod_flag: AtomicBool,
    /// Raised while the consumer wants to enter or is inside.
    cons_flag: AtomicBool,
    /// Who waits when both want to enter: 1 the producer, 0 the consumer.
    turn: AtomicUsize,
    /// Raised once either party has been dropped.
    done: AtomicBool,
}

impl AccessFlags {
    /// All flags lowered and `turn` at 0.
    pub fn new() -> Self {
        AccessFlags {
            prod_flag: AtomicBool::new(false),
            cons_flag: AtomicBool::new(false),
            turn: AtomicUsize::new(0),
            done: AtomicBool::new(false),
        }
    }

    fn own_flag(&self, side: Side) -> (flag: &AtomicBool)
        ensures
            side == Side::Producer ==> *flag == self.prod_flag,
            side == Side::Consumer ==> *flag == self.cons_flag,
    {
        match side {
            Side::Producer => &self.prod_flag,
            Side::Consumer => &self.cons_flag,
        }
    }

    fn other_flag(&self, side: Side) -> (flag: &AtomicBool)
        ensures
            side == Side::Producer ==> *flag == self.cons_flag,
            side == Side::Consumer ==> *flag == self.prod_flag,
    {
        match side {
            Side::Producer => &self.cons_flag,
            Side::Consumer => &self.prod_flag,
        }
    }

    /// Entry, first half: `side` raises its own flag and then hands the
    /// turn to the other party by storing [`yield_turn`] (the steps `Idle`
    /// and `Raised` of [`ProtocolState::step`]). What is stored is not
    /// observable to proofs.
    pub fn request(&self, side: Side) {
        self.own_flag(side).store(true, std::sync::atomic::Ordering::SeqCst);
        self.turn.store(yield_turn(side), std::sync::atomic::Ordering::SeqCst);
    }

    /// Entry, second half, one round of waiting: `side` reads `turn` and goes
    /// in when [`turn_lets_in`]; otherwise it reads the other party's flag
    /// and goes in when [`flag_lets_in`] (the steps `Yielded` and
    /// `CheckingOther` of [`ProtocolState::step`]). The values read depend on
    /// the other thread and are not claimed; the decision taken on them is.
    pub fn may_enter(&self, side: Side) -> (check: EntryCheck)
        ensures
            check.decided(side),
    {
        let turn_seen = self.turn.load(std::sync::atomic::Ordering::SeqCst);
        if turn_lets_in(side, turn_seen) {
            EntryCheck { turn_seen, other_seen: None, go: true }
        } else {
            let other_raised = self.other_flag(side).load(std::sync::atomic::Ordering::SeqCst);
            EntryCheck { turn_seen, other_seen: Some(other_raised), go: flag_lets_in(other_raised) }
        }
    }

    /// Exit: `side` lowers its own flag (the step `Inside`). What is stored
    /// is not observable to proofs.
    pub fn leave(&self, side: Side) {
        self.own_flag(side).store(false, std::sync::atomic::Ordering::SeqCst);
    }

    /// Whether either party has been dropped.
    pub fn is_done(&self) -> bool {
        self.done.load(std::sync::atomic::Ordering::SeqCst)
    }

    /// Records that a party has been dropped.
    pub fn mark_done(&self)
        opens_invariants none
        no_unwind
    {
        raise_flag(&self.done);
    }
}

/// Where a party stands in Peterson's protocol.
#[derive(Debug, Clone, Copy, PartialEq, Eq, Structural)]
pub enum Stage {
    /// Outside, not asking to enter; its flag is down.
    Idle,
    /// Its flag is raised; it has still to hand over the turn.
    Raised,
    /// It has handed over the turn; it reads `turn` next.
    Yielded,
    /// It read `turn` as its own yielded value; it reads the other flag next.
    CheckingOther,
    /// Inside the critical section.
    Inside,
}

/// The shared flags and both parties' stages, as the atomic operations of
/// [`AccessFlags`] change them one at a time.
pub struct ProtocolState {
    pub producer_flag: bool,
    pub consumer_flag: bool,
    pub turn: usize,
    pub producer: Stage,
    pub consumer: Stage,
}

impl ProtocolState {
    /// The state right after [`AccessFlags::new`].
    pub open spec fn initial() -> Self {
        ProtocolState {
            producer_flag: false,
            consumer_flag: false,
            turn: 0,
            producer: Stage::Idle,
            consumer: Stage::Idle,
        }
    }

    pub open spec fn stage(self, side: Side) -> Stage {
        match side {
            Side::Producer => self.producer,
            Side::Consumer => self.consumer,
        }
    }

    pub open spec fn flag(self, side: Side) -> bool {
        match side {
            Side::Producer => self.producer_flag,
            Side::Consumer => self.consumer_flag,
        }
    }

    pub open spec fn other(side: Side) -> Side {
        match side {
            Side::Producer => Side::Consumer,
            Side::Consumer => Side::Producer,
        }
    }

    pub open spec fn with_stage(self, side: Side, stage: Stage) -> Self {
        match side {
            Side::Producer => ProtocolState { producer: stage, ..self },
            Side::Consumer => ProtocolState { consumer: stage, ..self },
        }
    }

    pub open spec fn with_flag(self, side: Side, flag: bool) -> Self {
        match side {
            Side::Producer => ProtocolState { producer_flag: flag, ..self },
            Side::Consumer => ProtocolState { consumer_flag: flag, ..self },
        }
    }

    /// One atomic operation of `side`.
    pub open spec fn step(self, side: Side) -> Self {
        match self.stage(side) {
            Stage::Idle => self.with_flag(side, true).with_stage(side, Stage::Raised),
            Stage::Raised => ProtocolState { turn: spec_yield_turn(side), ..self }.with_stage(
                side,
                Stage::Yielded,
            ),
            Stage::Yielded => if spec_turn_lets_in(side, self.turn) {
                self.with_stage(side, Stage::Inside)
            } else {
                self.with_stage(side, Stage::CheckingOther)
            },
            Stage::CheckingOther => if spec_flag_lets_in(self.flag(Self::other(side))) {
                self.with_stage(side, Stage::Inside)
            } else {
                self.with_stage(side, Stage::Yielded)
            },
            Stage::Inside => self.with_flag(side, false).with_stage(side, Stage::Idle),
        }
    }

    /// The state after the parties take the steps in `schedule`, in order.
    pub open spec fn run(self, schedule: Seq<Side>) -> Self
        decreases schedule.len(),
    {
        if schedule.len() == 0 {
            self
        } else {
            self.run(schedule.drop_last()).step(schedule.last())
        }
    }

    /// Whether `side` has handed over the turn and not yet left.
    pub open spec fn past_yield(self, side: Side) -> bool {
        match self.stage(side) {
            Stage::Yielded | Stage::CheckingOther | Stage::Inside => true,
            _ => false,
        }
    }

    /// The protocol's invariant: each flag is up exactly while its party is
    /// not idle, `turn` holds one of the two yielded values, and a party
    /// that is inside while the other has handed over the turn got there
    /// because the other party's hand-over gave it the turn.
    pub open spec fn inv(self) -> bool {
        &&& self.producer_flag <==> self.producer != Stage::Idle
        &&& self.consumer_flag <==> self.consumer != Stage::Idle
        &&& self.turn == 0 || self.turn == 1
        &&& (self.producer == Stage::Inside && self.past_yield(Side::Consumer)) ==> self.turn == 0
        &&& (self.consumer == Stage::Inside && self.past_yield(Side::Producer)) ==> self.turn == 1
    }
}

/// Every atomic operation of either party keeps the protocol's invariant.
pub proof fn lemma_step_keeps_inv(s: ProtocolState, side: Side)
    requires
        s.inv(),
    ensures
        s.step(side).inv(),
{
}

/// Mutual exclusion: however the two parties' operations interleave from
/// the initial state, they are never inside at the same time.
pub proof fn lemma_mutual_exclusion(schedule: Seq<Side>)
    ensures
        ProtocolState::initial().run(schedule).inv(),
        !(ProtocolState::initial().run(schedule).producer == Stage::Inside
            && ProtocolState::initial().run(schedule).consumer == Stage::Inside),
    decreases schedule.len(),
{
    if schedule.len() > 0 {
        lemma_mutual_exclusion(schedule.drop_last());
        lemma_step_keeps_inv(ProtocolState::initial().run(schedule.drop_last()), schedule.last());
    }
}

/// A round of waiting decided as [`AccessFlags::may_enter`] decides takes
/// the protocol's steps: in a state `s` where `side` has yielded and `turn`
/// holds what the round read, the step goes in at once when the round read
/// no flag; otherwise it goes on to check the other flag, and in the state
/// `t` in which that flag is read, the step goes in exactly when the round
/// does.
pub proof fn lemma_entry_check_follows_steps(
    check: EntryCheck,
    side: Side,
    s: ProtocolState,
    t: ProtocolState,
)
    requires
        check.decided(side),
        s.stage(side) == Stage::Yielded,
        s.turn == check.turn_seen,
        check.other_seen is Some ==> t.stage(side) == Stage::CheckingOther && t.flag(
            ProtocolState::other(side),
        ) == check.other_seen->0,
    ensures
        check.other_seen is None ==> check.go && s.step(side).stage(side) == Stage::Inside,
        check.other_seen is Some ==> s.step(side).stage(side) == Stage::CheckingOther && (t.step(
            side,
        ).stage(side) == Stage::Inside <==> check.go),
{
}

/// Whether `side` has asked to enter and is waiting for its chance.
pub open spec fn waiting(s: ProtocolState, side: Side) -> bool {
    s.stage(side) == Stage::Yielded || s.stage(side) == Stage::CheckingOther
}

/// A waiting party that the turn favours, or whose partner is idle, gets in
/// within two of its own operations, whatever the other party does.
pub proof fn lemma_favoured_enters(s: ProtocolState, side: Side)
    requires
        s.inv(),
        waiting(s, side),
        s.turn != spec_yield_turn(side) || s.stage(ProtocolState::other(side)) == Stage::Idle,
    ensures
        s.step(side).stage(side) == Stage::Inside
            || s.step(side).step(side).stage(side) == Stage::Inside,
{
}

/// No deadlock: when both parties wait, the turn favours one of them, which
/// then gets in within two of its own operations.
pub proof fn lemma_no_deadlock(s: ProtocolState)
    requires
        s.inv(),
        waiting(s, Side::Producer),
        waiting(s, Side::Consumer),
    ensures
        ({
            let side = if s.turn == 1 { Side::Consumer } else { Side::Producer };
            s.step(side).stage(side) == Stage::Inside
                || s.step(side).step(side).stage(side) == Stage::Inside
        }),
{
    let side = if s.turn == 1 { Side::Consumer } else { Side::Producer };
    lemma_favoured_enters(s, side);
}

} // verus!
