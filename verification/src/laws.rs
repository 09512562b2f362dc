//! System-wide laws, proved over traces of the model.
//!
//! A trace is a sequence of stimuli: `Edge` is a rising edge latched by the
//! interrupt controller, `Run` is the dispatcher running whichever task is
//! ready to completion. Any interleaving of the two is a legal execution of
//! the single-core, run-to-completion scheduler, so a property proved over
//! all traces holds of every schedule the hardware can produce.

use vstd::prelude::*;

use crate::model::{
    boot_model, button_step, edge_step, inv, lemma_boot_inv, lemma_step_inv, quiescent, ready_task,
    run_step, toggle_step, Level, LogEntry, Model, Task,
};

verus! {

/// One stimulus of a trace.
#[derive(Clone, Copy, Debug, PartialEq, Eq, Structural)]
pub enum Stim {
    /// A rising edge on the button pin.
    Edge,
    /// One dispatcher step: the ready task runs to completion.
    Run,
}

/// Effect of one stimulus on the model.
pub open spec fn stim_step(m: Model, e: Stim) -> Model {
    match e {
        Stim::Edge => edge_step(m),
        Stim::Run => run_step(m),
    }
}

/// Effect of a whole trace, oldest stimulus first.
pub open spec fn run_trace(m: Model, t: Seq<Stim>) -> Model
    decreases t.len(),
{
    if t.len() == 0 {
        m
    } else {
        run_trace(stim_step(m, t[0]), t.drop_first())
    }
}

/// How many edges a trace injects.
pub open spec fn edge_count(t: Seq<Stim>) -> nat
    decreases t.len(),
{
    if t.len() == 0 {
        0
    } else {
        (if t[0] is Edge { 1nat } else { 0nat }) + edge_count(t.drop_first())
    }
}

/// Traces compose: running `t1` and then `t2` is running `t1 + t2`.
pub proof fn lemma_run_trace_append(m: Model, t1: Seq<Stim>, t2: Seq<Stim>)
    ensures
        run_trace(m, t1 + t2) == run_trace(run_trace(m, t1), t2),
    decreases t1.len(),
{
    if t1.len() == 0 {
        assert(t1 + t2 =~= t2);
    } else {
        assert((t1 + t2).drop_first() =~= t1.drop_first() + t2);
        lemma_run_trace_append(stim_step(m, t1[0]), t1.drop_first(), t2);
    }
}

/// Law (the counters only grow): along any schedule the event counter and
/// the phase flag never decrease, and each advances by at most one per
/// dispatcher step — the count a probe observes is monotonic.
pub proof fn law_counters_monotone(m: Model, t: Seq<Stim>)
    ensures
        m.count <= run_trace(m, t).count <= m.count + t.len(),
        m.flag <= run_trace(m, t).flag <= m.flag + t.len(),
    decreases t.len(),
{
    if t.len() > 0 {
        law_counters_monotone(stim_step(m, t[0]), t.drop_first());
    }
}

/// The state invariant is preserved along any trace. The bound on the
/// trace length asks only what the 32-bit counter forces: every serviced
/// event must still fit it.
pub proof fn lemma_trace_inv(m: Model, t: Seq<Stim>)
    requires
        inv(m),
        m.count + t.len() <= u32::MAX,
    ensures
        inv(run_trace(m, t)),
    decreases t.len(),
{
    if t.len() > 0 {
        lemma_step_inv(m);
        lemma_trace_inv(stim_step(m, t[0]), t.drop_first());
    }
}

/// Each button run consumes one latched edge, so the counter (plus a still
/// latched edge) never outgrows the edges the trace injected.
pub proof fn lemma_count_le_edges(m: Model, t: Seq<Stim>)
    ensures
        ({
            let n = run_trace(m, t);
            n.count + (if n.exti_pending { 1int } else { 0int }) <= m.count + (if m.exti_pending {
                1int
            } else {
                0int
            }) + edge_count(t)
        }),
    decreases t.len(),
{
    if t.len() > 0 {
        lemma_count_le_edges(stim_step(m, t[0]), t.drop_first());
    }
}

/// While no edge arrives, a cleared pending bit stays cleared.
pub proof fn lemma_no_edge_keeps_clear(m: Model, t: Seq<Stim>)
    requires
        !m.exti_pending,
        edge_count(t) == 0,
    ensures
        !run_trace(m, t).exti_pending,
    decreases t.len(),
{
    if t.len() > 0 {
        lemma_no_edge_keeps_clear(stim_step(m, t[0]), t.drop_first());
    }
}

/// Law (monotonic count): on any schedule from cold boot, the log is the
/// boot banner followed by `External interrupt 1!`, `External interrupt
/// 2!`, ... in order — exactly one line per button run, carrying the run's
/// ordinal.
pub proof fn law_monotonic_count(t: Seq<Stim>)
    requires
        1 + t.len() <= u32::MAX,
    ensures
        ({
            let m = run_trace(boot_model(), t);
            &&& m.log.len() == m.count + 2
            &&& m.log[0] == LogEntry::PreInit
            &&& m.log[1] == LogEntry::Blank
            &&& m.log[2] == LogEntry::Idle
            &&& forall|i: int|
                3 <= i < m.log.len() ==> m.log[i] == LogEntry::ExternalInterrupt((i - 2) as u32)
        }),
{
    lemma_boot_inv();
    lemma_trace_inv(boot_model(), t);
}

/// Law (one toggle per edge): toggle runs never outnumber button runs,
/// button runs never outnumber injected edges, and once an event has been
/// serviced and the system is quiet, the toggle task has run at least once.
pub proof fn law_toggle_per_edge(t: Seq<Stim>)
    requires
        1 + t.len() <= u32::MAX,
    ensures
        ({
            let m = run_trace(boot_model(), t);
            &&& m.flag <= m.count
            &&& m.count - 1 <= edge_count(t)
            &&& (quiescent(m) && m.count > 1 ==> m.flag > 1)
        }),
{
    lemma_boot_inv();
    lemma_trace_inv(boot_model(), t);
    lemma_count_le_edges(boot_model(), t);
}

/// Law (parity): writing K for the number of completed toggle runs, the
/// LED is high after the K-th run exactly when K is odd, and before the
/// first run it keeps the level init drove, high.
pub proof fn law_parity(t: Seq<Stim>)
    requires
        1 + t.len() <= u32::MAX,
    ensures
        ({
            let m = run_trace(boot_model(), t);
            let k = m.flag - 1;
            &&& (k == 0 ==> m.led == Level::High)
            &&& (k >= 1 ==> (m.led == Level::High <==> k % 2 == 1))
        }),
{
    lemma_boot_inv();
    lemma_trace_inv(boot_model(), t);
}

/// Law (prompt return): the button task leaves the pending bit clear, so
/// its vector cannot re-fire, and the dispatcher cannot run it again until
/// a new edge arrives.
pub proof fn law_pending_cleared(m: Model)
    ensures
        !button_step(m).exti_pending,
        ready_task(button_step(m)) != Some(Task::Button),
        forall|t: Seq<Stim>|
            edge_count(t) == 0 ==> !run_trace(button_step(m), t).exti_pending,
{
    assert forall|t: Seq<Stim>|
        edge_count(t) == 0 implies !run_trace(button_step(m), t).exti_pending by {
        lemma_no_edge_keeps_clear(button_step(m), t);
    }
}

/// Law (serialised access): tasks at one priority run to completion and
/// never interleave, so the LED level is a function of how many toggle
/// runs have completed — two schedules from boot with equally many toggle
/// runs leave the LED at the same level.
pub proof fn law_serialised_led(t1: Seq<Stim>, t2: Seq<Stim>)
    requires
        1 + t1.len() <= u32::MAX,
        1 + t2.len() <= u32::MAX,
        run_trace(boot_model(), t1).flag == run_trace(boot_model(), t2).flag,
    ensures
        run_trace(boot_model(), t1).led == run_trace(boot_model(), t2).led,
{
    lemma_boot_inv();
    lemma_trace_inv(boot_model(), t1);
    lemma_trace_inv(boot_model(), t2);
}

/// The trace of n well-separated presses: each edge is fully serviced —
/// one button run, one toggle run — before the next arrives.
pub open spec fn presses(n: nat) -> Seq<Stim>
    decreases n,
{
    if n == 0 {
        Seq::empty()
    } else {
        presses((n - 1) as nat) + seq![Stim::Edge, Stim::Run, Stim::Run]
    }
}

/// Law (well-separated presses): n presses from cold boot log exactly the
/// lines `External interrupt 1!` .. `External interrupt n!` in order, run
/// the toggle task exactly n times, and leave the LED high exactly when n
/// is odd (or when nothing ran at all and init's level still stands).
pub proof fn law_presses(n: nat)
    requires
        n + 1 <= u32::MAX,
    ensures
        ({
            let m = run_trace(boot_model(), presses(n));
            &&& quiescent(m)
            &&& m.count == n + 1
            &&& m.flag == n + 1
            &&& m.log.len() == n + 3
            &&& forall|i: int|
                3 <= i < n + 3 ==> m.log[i] == LogEntry::ExternalInterrupt((i - 2) as u32)
            &&& (m.led == Level::High <==> (n == 0 || n % 2 == 1))
        }),
    decreases n,
{
    if n == 0 {
    } else {
        law_presses((n - 1) as nat);
        let prev = run_trace(boot_model(), presses((n - 1) as nat));
        let one = seq![Stim::Edge, Stim::Run, Stim::Run];
        lemma_run_trace_append(boot_model(), presses((n - 1) as nat), one);
        assert(one.drop_first() =~= seq![Stim::Run, Stim::Run]);
        assert(one.drop_first().drop_first() =~= seq![Stim::Run]);
        assert(one.drop_first().drop_first().drop_first() =~= Seq::<Stim>::empty());
        let e = edge_step(prev);
        assert(one[0] == Stim::Edge && one.drop_first()[0] == Stim::Run
            && one.drop_first().drop_first()[0] == Stim::Run);
        assert(run_trace(prev, one) == run_trace(e, one.drop_first()));
        assert(ready_task(e) == Some(Task::Button));
        assert(run_trace(e, one.drop_first()) == run_trace(
            button_step(e),
            one.drop_first().drop_first(),
        ));
        assert(ready_task(button_step(e)) == Some(Task::Toggle));
        assert(run_trace(button_step(e), one.drop_first().drop_first()) == run_trace(
            toggle_step(button_step(e)),
            one.drop_first().drop_first().drop_first(),
        ));
        assert(run_trace(prev, one) == toggle_step(button_step(e)));
        let m = run_trace(boot_model(), presses(n));
        assert(forall|i: int|
            3 <= i < n + 3 ==> m.log[i] == LogEntry::ExternalInterrupt((i - 2) as u32)) by {
            assert(forall|i: int| 3 <= i < n + 2 ==> m.log[i] == prev.log[i]);
        }
    }
}

/// Law (idle liveness): with no edges, a quiescent system does not move:
/// every dispatcher step finds nothing ready and the core stays in idle.
pub proof fn law_idle(m: Model, t: Seq<Stim>)
    requires
        quiescent(m),
        edge_count(t) == 0,
    ensures
        run_trace(m, t) == m,
    decreases t.len(),
{
    if t.len() > 0 {
        law_idle(stim_step(m, t[0]), t.drop_first());
    }
}

} // verus!
