//! The write coordination lock: one holder at a time for the sequence that writes the
//! firmware search-path register and then triggers a load.
//!
//! The lock itself is the caller's (an asynchronous mutex); what is proved here is the
//! discipline around it. `lock_step` says how one lock-guarded operation may move: from
//! outside the lock it may only ask for the lock; once granted it writes its own prefix
//! to the register; once that write succeeded it issues the trigger; then it gives the
//! lock back. The composite requests of `control` state that each of their steps is a
//! `lock_step`. The law below holds for any two operations that move so, scheduled in
//! any order: whenever one of them performs its trigger, the register holds its own
//! prefix.

use vstd::prelude::*;

verus! {

/// Where a lock-guarded operation stands.
pub ghost enum LockPhase {
    /// Not holding the lock and not asking for it.
    Outside,
    /// Asked for the lock.
    Waiting,
    /// Holds the lock; its register write is under way.
    Writing,
    /// Holds the lock; its trigger is under way.
    Triggering,
    /// Has given the lock back.
    Releasing,
}

/// What one step of an operation asks for.
pub ghost enum LockEvent {
    Acquire,
    /// A write of the given text to the register.
    WriteRegister(Seq<char>),
    /// A write that triggers a load.
    Trigger,
    Release,
    /// Anything that writes nothing and leaves the lock alone.
    Other,
}

/// One step of a lock-guarded operation with prefix `prefix`, from `before` to `after`,
/// asking for `ev`; `completed` says whether what it asked for last succeeded.
pub open spec fn lock_step(
    before: LockPhase,
    completed: bool,
    prefix: Seq<char>,
    after: LockPhase,
    after_prefix: Seq<char>,
    ev: LockEvent,
) -> bool {
    match before {
        LockPhase::Outside => (after == LockPhase::Outside && ev == LockEvent::Other) || (after
            == LockPhase::Waiting && ev == LockEvent::Acquire),
        LockPhase::Waiting => after_prefix == prefix && after == LockPhase::Writing && ev
            == LockEvent::WriteRegister(prefix),
        LockPhase::Writing => after_prefix == prefix && if completed {
            after == LockPhase::Triggering && ev == LockEvent::Trigger
        } else {
            after == LockPhase::Releasing && ev == LockEvent::Release
        },
        LockPhase::Triggering => after_prefix == prefix && after == LockPhase::Releasing && ev
            == LockEvent::Release,
        LockPhase::Releasing => after == LockPhase::Outside && ev == LockEvent::Other,
    }
}

/// One operation: its identity, where it stands, and its current prefix.
pub ghost struct GuardedOp {
    pub id: u64,
    pub phase: LockPhase,
    pub prefix: Seq<char>,
}

/// Two operations, the lock's holder and the register they share.
pub ghost struct GuardedSystem {
    pub holder: Option<u64>,
    pub register: Seq<char>,
    pub x: GuardedOp,
    pub y: GuardedOp,
}

/// `op` moves to `next`, asking for `ev`, while the lock's holder goes from `holder` to
/// `holder2` and the register from `register` to `register2`. The lock is granted only
/// when free; a register write that succeeds stores the operation's prefix; a release
/// frees the lock.
pub open spec fn op_moves(
    holder: Option<u64>,
    register: Seq<char>,
    op: GuardedOp,
    completed: bool,
    next: GuardedOp,
    ev: LockEvent,
    holder2: Option<u64>,
    register2: Seq<char>,
) -> bool {
    &&& next.id == op.id
    &&& lock_step(op.phase, completed, op.prefix, next.phase, next.prefix, ev)
    &&& (op.phase == LockPhase::Waiting ==> holder.is_none() && completed)
    &&& holder2 == if ev == LockEvent::Release {
        None
    } else if op.phase == LockPhase::Waiting {
        Some(op.id)
    } else {
        holder
    }
    &&& register2 == if op.phase == LockPhase::Writing && completed {
        op.prefix
    } else {
        register
    }
}

/// One move of the system: one of the operations moves.
pub open spec fn system_moves(s: GuardedSystem, t: GuardedSystem) -> bool {
    (exists|completed: bool, ev: LockEvent|
        op_moves(s.holder, s.register, s.x, completed, t.x, ev, t.holder, t.register) && t.y
            == s.y) || (exists|completed: bool, ev: LockEvent|
        op_moves(s.holder, s.register, s.y, completed, t.y, ev, t.holder, t.register) && t.x
            == s.x)
}

pub open spec fn holds_lock(p: LockPhase) -> bool {
    p == LockPhase::Writing || p == LockPhase::Triggering
}

pub open spec fn op_ok(holder: Option<u64>, register: Seq<char>, op: GuardedOp) -> bool {
    &&& (holds_lock(op.phase) <==> holder == Some(op.id))
    &&& (op.phase == LockPhase::Triggering ==> register == op.prefix)
}

/// What holds in every reachable state of two operations with different identities.
pub open spec fn system_ok(s: GuardedSystem) -> bool {
    &&& s.x.id != s.y.id
    &&& op_ok(s.holder, s.register, s.x)
    &&& op_ok(s.holder, s.register, s.y)
    &&& (s.holder.is_some() ==> s.holder == Some(s.x.id) || s.holder == Some(s.y.id))
}

/// Both operations outside the lock, the lock free.
pub open spec fn initial_system(s: GuardedSystem) -> bool {
    &&& s.x.id != s.y.id
    &&& s.holder.is_none()
    &&& s.x.phase == LockPhase::Outside
    &&& s.y.phase == LockPhase::Outside
}

proof fn lemma_op_moves_keeps_ok(s: GuardedSystem, t: GuardedSystem, completed: bool, ev: LockEvent, move_x: bool)
    requires
        system_ok(s),
        move_x ==> op_moves(s.holder, s.register, s.x, completed, t.x, ev, t.holder, t.register)
            && t.y == s.y,
        !move_x ==> op_moves(s.holder, s.register, s.y, completed, t.y, ev, t.holder, t.register)
            && t.x == s.x,
    ensures
        system_ok(t),
{
}

/// Lock-guarded operations never interleave. Where both move by `lock_step` and the
/// lock admits one holder, what holds at the start holds after every move; in
/// particular, an operation that performs its trigger finds the register holding the
/// prefix it wrote itself, and the two never hold the lock together.
pub proof fn lemma_guarded_triggers_observe_own_prefix(s: GuardedSystem, t: GuardedSystem)
    requires
        initial_system(s) || system_ok(s),
        system_moves(s, t),
    ensures
        system_ok(s),
        system_ok(t),
        s.x.phase == LockPhase::Triggering ==> s.register == s.x.prefix,
        s.y.phase == LockPhase::Triggering ==> s.register == s.y.prefix,
        !(holds_lock(t.x.phase) && holds_lock(t.y.phase)),
{
    if exists|completed: bool, ev: LockEvent|
        op_moves(s.holder, s.register, s.x, completed, t.x, ev, t.holder, t.register) && t.y
            == s.y {
        let (completed, ev) = choose|completed: bool, ev: LockEvent|
            op_moves(s.holder, s.register, s.x, completed, t.x, ev, t.holder, t.register) && t.y
                == s.y;
        lemma_op_moves_keeps_ok(s, t, completed, ev, true);
    } else {
        let (completed, ev) = choose|completed: bool, ev: LockEvent|
            op_moves(s.holder, s.register, s.y, completed, t.y, ev, t.holder, t.register) && t.x
                == s.x;
        lemma_op_moves_keeps_ok(s, t, completed, ev, false);
    }
}

} // verus!
