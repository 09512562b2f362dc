//! Mathematical model of the controller.
//!
//! `Model` is the ghost image of the whole system: the LED level, the
//! pending bit of the button's interrupt line, the one-slot queue for the
//! toggle task, the event counter, the phase flag, and the log. The step
//! functions below say exactly what each hardware event or task run does to
//! that image; the executable state in `machine` is proved to follow them.

use vstd::prelude::*;

verus! {

/// Level of a push-pull output pin.
#[derive(Clone, Copy, Debug, PartialEq, Eq, Structural)]
pub enum Level {
    Low,
    High,
}

/// One line emitted on the debug log transport.
#[derive(Clone, Copy, Debug, PartialEq, Eq, Structural)]
pub enum LogEntry {
    /// `pre init`, printed before the clock tree is raised.
    PreInit,
    /// The empty line printed when the idle task first runs.
    Blank,
    /// `idle`, printed when the idle task first runs.
    Idle,
    /// `External interrupt <n>!`, printed once per serviced button edge.
    ExternalInterrupt(u32),
}

/// The two tasks the dispatcher can run. Both sit at the same priority,
/// so neither ever preempts the other.
#[derive(Clone, Copy, Debug, PartialEq, Eq, Structural)]
pub enum Task {
    /// Bound to the button's interrupt vector.
    Button,
    /// Software-spawned; drives the LED.
    Toggle,
}

/// Ghost image of the controller state.
#[verifier::ext_equal]
pub ghost struct Model {
    /// Level of the LED pin.
    pub led: Level,
    /// Pending bit of the button's line in the interrupt controller.
    pub exti_pending: bool,
    /// Whether a toggle request sits in the one-slot spawn queue.
    pub toggle_queued: bool,
    /// When both tasks are ready: the button task became ready first.
    pub button_first: bool,
    /// Event counter: the number the next log line will carry.
    pub count: int,
    /// Phase flag: one more than the number of completed toggle runs.
    pub flag: int,
    /// Everything logged so far, oldest first.
    pub log: Seq<LogEntry>,
    /// Chip-select of the inactive display wiring: driven high once in
    /// init, claimed by no task, and never touched again.
    pub chip_select: Level,
    /// Data/command of the inactive display wiring: driven low once in
    /// init, claimed by no task, and never touched again.
    pub data_command: Level,
}

/// State as the init task leaves it: LED driven high, counter and flag at
/// one, the pending bit cleared, `pre init` logged.
pub open spec fn init_model() -> Model {
    Model {
        led: Level::High,
        exti_pending: false,
        toggle_queued: false,
        button_first: false,
        count: 1,
        flag: 1,
        log: seq![LogEntry::PreInit],
        chip_select: Level::High,
        data_command: Level::Low,
    }
}

/// State once the idle task has printed its banner: the quiescent state a
/// cold boot settles into.
pub open spec fn boot_model() -> Model {
    Model {
        log: seq![LogEntry::PreInit, LogEntry::Blank, LogEntry::Idle],
        ..init_model()
    }
}

/// A rising edge on the button pin: the controller latches the pending bit.
/// An edge that arrives while the bit is already set is absorbed by the
/// latch. When the toggle task is already queued, the button task becomes
/// the younger of the two ready tasks.
pub open spec fn edge_step(m: Model) -> Model {
    if m.exti_pending {
        m
    } else {
        Model { exti_pending: true, button_first: !m.toggle_queued, ..m }
    }
}

/// A spawn request for the toggle task: taken when the one-slot queue is
/// free, dropped when a request is already waiting.
pub open spec fn spawn_step(m: Model) -> Model {
    if m.toggle_queued {
        m
    } else {
        Model {
            toggle_queued: true,
            button_first: m.exti_pending || m.button_first,
            ..m
        }
    }
}

/// One run of the button task: log the counter, advance it, request a
/// toggle, and clear the pending bit before returning.
pub open spec fn button_step(m: Model) -> Model {
    let logged = Model {
        count: m.count + 1,
        log: m.log.push(LogEntry::ExternalInterrupt(m.count as u32)),
        ..m
    };
    Model { exti_pending: false, ..spawn_step(logged) }
}

/// One run of the toggle task: advance the phase flag, then drive the LED
/// high when the new flag is even and low when it is odd.
pub open spec fn toggle_step(m: Model) -> Model {
    Model {
        toggle_queued: false,
        flag: m.flag + 1,
        led: if (m.flag + 1) % 2 == 0 { Level::High } else { Level::Low },
        ..m
    }
}

/// The task the dispatcher will run next: with both ready, the one that
/// became ready first; with neither, none, and the core idles.
pub open spec fn ready_task(m: Model) -> Option<Task> {
    if m.exti_pending && m.toggle_queued {
        if m.button_first {
            Some(Task::Button)
        } else {
            Some(Task::Toggle)
        }
    } else if m.exti_pending {
        Some(Task::Button)
    } else if m.toggle_queued {
        Some(Task::Toggle)
    } else {
        None
    }
}

/// One dispatcher step: run the ready task to completion, or nothing.
pub open spec fn run_step(m: Model) -> Model {
    match ready_task(m) {
        Some(Task::Button) => button_step(m),
        Some(Task::Toggle) => toggle_step(m),
        None => m,
    }
}

/// Nothing is ready: the core sits in the idle task.
pub open spec fn quiescent(m: Model) -> bool {
    !m.exti_pending && !m.toggle_queued
}

/// What always holds of a state reachable from boot:
/// - the counter and flag start at one and fit the 32-bit statics;
/// - at most one toggle has run per button event, and a queued request
///   accounts for the gap (`flag < count` while one waits);
/// - once an event has been serviced, a toggle has run or is queued;
/// - the LED level is the parity of the flag, except in the untouched
///   initial state where it is the level init drove;
/// - the log is the boot banner followed by the counter values
///   `1, 2, 3, ...` in order, one line per button run.
pub open spec fn inv(m: Model) -> bool {
    &&& 1 <= m.count <= u32::MAX
    &&& 1 <= m.flag <= u32::MAX
    &&& m.flag <= m.count
    &&& (m.toggle_queued ==> m.flag < m.count)
    &&& (m.count > 1 ==> m.toggle_queued || m.flag > 1)
    &&& (m.flag == 1 ==> m.led == Level::High)
    &&& (m.flag > 1 ==> (m.led == Level::High <==> m.flag % 2 == 0))
    &&& m.log.len() == m.count + 2
    &&& m.log[0] == LogEntry::PreInit
    &&& m.log[1] == LogEntry::Blank
    &&& m.log[2] == LogEntry::Idle
    &&& (forall|i: int|
        3 <= i < m.log.len() ==> m.log[i] == LogEntry::ExternalInterrupt((i - 2) as u32))
    &&& m.chip_select == Level::High
    &&& m.data_command == Level::Low
}

/// The invariant holds of the state a cold boot settles into.
pub proof fn lemma_boot_inv()
    ensures
        inv(boot_model()),
        quiescent(boot_model()),
{
}

/// Each step of the system preserves the invariant. The counter bound asks
/// only what the 32-bit static forces: one more event must still fit.
pub proof fn lemma_step_inv(m: Model)
    requires
        inv(m),
        m.count < u32::MAX,
    ensures
        inv(edge_step(m)),
        inv(run_step(m)),
{
    assert(inv(button_step(m))) by {
        let b = button_step(m);
        assert(b.log.len() == b.count + 2);
        assert(forall|i: int|
            3 <= i < b.log.len() ==> b.log[i] == LogEntry::ExternalInterrupt((i - 2) as u32));
    }
}

} // verus!
