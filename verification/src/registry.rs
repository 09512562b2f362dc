//! The task table and the immediate-ceiling resource policy.
//!
//! The firmware declares, at static scope, which tasks exist, at which
//! priority each runs, and which shared resources it claims. A task
//! entering a critical section on a resource raises the core's execution
//! priority to the resource's ceiling — the greatest priority of any
//! claimant — and restores it on exit. Preemption needs a strictly higher
//! priority, so no claimant can interrupt the section: access to the
//! resource is serialised, and no task can wait on another at the same
//! core, so there is no deadlock. The lemmas below prove this reading of
//! the table.

use vstd::prelude::*;

verus! {

/// Resource id of the LED pin handle.
pub const RES_LED: u8 = 0;

/// Resource id of the button pin handle.
pub const RES_BUTTON: u8 = 1;

/// Priority of the idle task: anything ready preempts it.
pub const PRIO_IDLE: u8 = 0;

/// Priority of the button and toggle tasks.
pub const PRIO_EVENT: u8 = 1;

/// One row of the task table: a task's priority and the ids of the shared
/// resources it claims.
pub struct TaskDecl {
    /// The priority the task is dispatched at.
    pub priority: u8,
    /// Ids of the resources the task claims.
    pub claims: Vec<u8>,
}

impl TaskDecl {
    /// Whether the task claims resource `r`.
    pub open spec fn claims_res(&self, r: u8) -> bool {
        self.claims@.contains(r)
    }
}

/// The ceiling of resource `r`: the greatest priority of any task that
/// claims it, or the idle priority when none does.
pub open spec fn ceiling_of(table: Seq<TaskDecl>, r: u8) -> int
    decreases table.len(),
{
    if table.len() == 0 {
        PRIO_IDLE as int
    } else {
        let rest = ceiling_of(table.drop_last(), r);
        if table.last().claims_res(r) && table.last().priority > rest {
            table.last().priority as int
        } else {
            rest
        }
    }
}

/// A task preempts only what runs at strictly lower priority: equals
/// serialise on their vector.
pub open spec fn can_preempt(running_at: int, claimant: int) -> bool {
    claimant > running_at
}

/// Compute a resource's ceiling from the table.
pub fn ceiling(table: &Vec<TaskDecl>, r: u8) -> (c: u8)
    ensures
        c == ceiling_of(table@, r),
{
    let mut c: u8 = PRIO_IDLE;
    let mut i: usize = 0;
    while i < table.len()
        invariant
            i <= table@.len(),
            c == ceiling_of(table@.take(i as int), r),
        decreases table@.len() - i,
    {
        proof {
            assert(table@.take(i + 1).drop_last() =~= table@.take(i as int));
            assert(table@.take(i + 1).last() == table@[i as int]);
        }
        if contains_id(&table[i].claims, r) && table[i].priority > c {
            c = table[i].priority;
        }
        i = i + 1;
    }
    proof {
        assert(table@.take(table@.len() as int) =~= table@);
    }
    c
}

/// Whether `ids` holds `r`.
pub fn contains_id(ids: &Vec<u8>, r: u8) -> (found: bool)
    ensures
        found == ids@.contains(r),
{
    let mut i: usize = 0;
    while i < ids.len()
        invariant
            i <= ids@.len(),
            forall|j: int| 0 <= j < i ==> ids@[j] != r,
        decreases ids@.len() - i,
    {
        if ids[i] == r {
            return true;
        }
        i = i + 1;
    }
    false
}

/// No claimant outranks the ceiling of a resource it claims.
pub proof fn lemma_ceiling_dominates(table: Seq<TaskDecl>, r: u8, i: int)
    requires
        0 <= i < table.len(),
        table[i].claims_res(r),
    ensures
        table[i].priority <= ceiling_of(table, r),
    decreases table.len(),
{
    if i < table.len() - 1 {
        assert(table.drop_last()[i] == table[i]);
        lemma_ceiling_dominates(table.drop_last(), r, i);
    }
}

/// The immediate-ceiling protocol: while a task holds a resource inside a
/// critical section at the resource's ceiling, no task that claims the
/// same resource can preempt it — the section is serialised.
pub proof fn lemma_ceiling_excludes_claimants(table: Seq<TaskDecl>, r: u8, i: int)
    requires
        0 <= i < table.len(),
        table[i].claims_res(r),
    ensures
        !can_preempt(ceiling_of(table, r), table[i].priority as int),
{
    lemma_ceiling_dominates(table, r, i);
}

/// The table this firmware declares: the button task and the toggle task
/// at the event priority — the button task claiming both pins, the toggle
/// task the LED — and the idle task, claiming nothing, below them.
pub fn firmware_tasks() -> (table: Vec<TaskDecl>)
    ensures
        table@.len() == 3,
        table@[0].priority == PRIO_EVENT,
        table@[0].claims@ == seq![RES_BUTTON, RES_LED],
        table@[1].priority == PRIO_EVENT,
        table@[1].claims@ == seq![RES_LED],
        table@[2].priority == PRIO_IDLE,
        table@[2].claims@ == Seq::<u8>::empty(),
{
    let mut button_claims: Vec<u8> = Vec::new();
    button_claims.push(RES_BUTTON);
    button_claims.push(RES_LED);
    let mut toggle_claims: Vec<u8> = Vec::new();
    toggle_claims.push(RES_LED);
    let idle_claims: Vec<u8> = Vec::new();
    let mut table: Vec<TaskDecl> = Vec::new();
    table.push(TaskDecl { priority: PRIO_EVENT, claims: button_claims });
    table.push(TaskDecl { priority: PRIO_EVENT, claims: toggle_claims });
    table.push(TaskDecl { priority: PRIO_IDLE, claims: idle_claims });
    proof {
        assert(table@[0].claims@ =~= seq![RES_BUTTON, RES_LED]);
        assert(table@[1].claims@ =~= seq![RES_LED]);
        assert(table@[2].claims@ =~= Seq::<u8>::empty());
    }
    table
}

/// In this firmware both claimants of the LED sit at the event priority,
/// so the LED's ceiling is that priority and neither the button task nor
/// the toggle task can preempt the other's critical section on it.
pub proof fn lemma_firmware_led_serialised(table: Seq<TaskDecl>)
    requires
        table.len() == 3,
        table[0].priority == PRIO_EVENT,
        table[0].claims@ == seq![RES_BUTTON, RES_LED],
        table[1].priority == PRIO_EVENT,
        table[1].claims@ == seq![RES_LED],
        table[2].priority == PRIO_IDLE,
        table[2].claims@ == Seq::<u8>::empty(),
    ensures
        ceiling_of(table, RES_LED) == PRIO_EVENT,
        !can_preempt(ceiling_of(table, RES_LED), table[0].priority as int),
        !can_preempt(ceiling_of(table, RES_LED), table[1].priority as int),
{
    let t2 = table.drop_last();
    let t1 = t2.drop_last();
    let t0 = t1.drop_last();
    assert(t0 =~= Seq::<TaskDecl>::empty());
    assert(ceiling_of(t0, RES_LED) == PRIO_IDLE as int);
    assert(t1.last() == table[0]);
    assert(table[0].claims_res(RES_LED)) by {
        assert(table[0].claims@[1] == RES_LED);
    }
    assert(t1.drop_last() =~= t0);
    assert(ceiling_of(t1, RES_LED) == PRIO_EVENT as int);
    assert(t2.last() == table[1]);
    assert(table[1].claims_res(RES_LED)) by {
        assert(table[1].claims@[0] == RES_LED);
    }
    assert(t2.drop_last() =~= t1);
    assert(ceiling_of(t2, RES_LED) == PRIO_EVENT as int);
    assert(table.last() == table[2]);
    assert(!table[2].claims_res(RES_LED));
    assert(ceiling_of(table, RES_LED) == PRIO_EVENT);
    lemma_ceiling_excludes_claimants(table, RES_LED, 0);
    lemma_ceiling_excludes_claimants(table, RES_LED, 1);
}

} // verus!
