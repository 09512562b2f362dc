//! Executable controller state and the task bodies.
//!
//! `System` carries, as plain values, everything the firmware keeps in
//! peripherals and task-local statics: the LED level, the pending bit of
//! the button line, the one-slot spawn queue, the event counter, the phase
//! flag, and the log. Each method is one task body or hardware event and is
//! proved to follow the corresponding step function of `model`.

use vstd::prelude::*;

use crate::model::{
    boot_model, button_step, edge_step, init_model, quiescent, ready_task, run_step, spawn_step,
    toggle_step, Level, LogEntry, Model, Task,
};

verus! {

/// The controller state. A value of this type stands for the whole board:
/// fields are public so that a harness can inspect what a probe would see.
pub struct System {
    /// Level of the LED pin.
    pub led: Level,
    /// Pending bit of the button's line in the interrupt controller.
    pub exti_pending: bool,
    /// Whether a toggle request sits in the one-slot spawn queue.
    pub toggle_queued: bool,
    /// When both tasks are ready: the button task became ready first.
    pub button_first: bool,
    /// Event counter, a task-local static of the button task.
    pub count: u32,
    /// Phase flag, a task-local static of the toggle task.
    pub flag: u32,
    /// Everything logged over the debug transport, oldest first.
    pub log: Vec<LogEntry>,
    /// Chip-select of the inactive display wiring, driven high in init.
    pub chip_select: Level,
    /// Data/command of the inactive display wiring, driven low in init.
    pub data_command: Level,
}

impl View for System {
    type V = Model;

    open spec fn view(&self) -> Model {
        Model {
            led: self.led,
            exti_pending: self.exti_pending,
            toggle_queued: self.toggle_queued,
            button_first: self.button_first,
            count: self.count as int,
            flag: self.flag as int,
            log: self.log@,
            chip_select: self.chip_select,
            data_command: self.data_command,
        }
    }
}

impl System {
    /// The init task: drive the LED high and the display wiring to its
    /// idle levels, clear any latched pending bit, start the counter and
    /// the flag at one, and log `pre init`.
    pub fn init() -> (s: System)
        ensures
            s@ == init_model(),
    {
        let mut log: Vec<LogEntry> = Vec::new();
        log.push(LogEntry::PreInit);
        let s = System {
            led: Level::High,
            exti_pending: false,
            toggle_queued: false,
            button_first: false,
            count: 1,
            flag: 1,
            log,
            chip_select: Level::High,
            data_command: Level::Low,
        };
        proof {
            assert(s@.log =~= init_model().log);
            assert(s@ =~= init_model());
        }
        s
    }

    /// First entry into the idle task: print the blank line and `idle`.
    /// Nothing else changes; afterwards the idle task only sleeps the core.
    pub fn enter_idle(&mut self)
        ensures
            final(self)@ == (Model { log: old(self)@.log + seq![LogEntry::Blank, LogEntry::Idle], ..old(self)@ }),
    {
        self.log.push(LogEntry::Blank);
        self.log.push(LogEntry::Idle);
        proof {
            assert(self@.log =~= old(self)@.log + seq![LogEntry::Blank, LogEntry::Idle]);
            assert(self@ =~= (Model {
                log: old(self)@.log + seq![LogEntry::Blank, LogEntry::Idle],
                ..old(self)@
            }));
        }
    }

    /// Cold boot: run init, then let the idle task print its banner. The
    /// system settles into the quiescent boot state.
    pub fn boot() -> (s: System)
        ensures
            s@ == boot_model(),
            quiescent(s@),
    {
        let mut s = System::init();
        s.enter_idle();
        proof {
            assert(s@ =~= boot_model());
        }
        s
    }

    /// A rising edge on the button pin: the interrupt controller latches
    /// the pending bit. An edge while the bit is set is absorbed.
    pub fn on_edge(&mut self)
        ensures
            final(self)@ == edge_step(old(self)@),
    {
        if !self.exti_pending {
            self.button_first = !self.toggle_queued;
            self.exti_pending = true;
        }
        proof {
            assert(self@ =~= edge_step(old(self)@));
        }
    }

    /// Request one run of the toggle task. The queue holds a single
    /// request: a second one is dropped, and the call reports it, as the
    /// firmware's discarded spawn error would.
    pub fn spawn_toggle(&mut self) -> (accepted: bool)
        ensures
            final(self)@ == spawn_step(old(self)@),
            accepted == !old(self)@.toggle_queued,
    {
        if self.toggle_queued {
            false
        } else {
            self.button_first = self.exti_pending || self.button_first;
            self.toggle_queued = true;
            proof {
                assert(self@ =~= spawn_step(old(self)@));
            }
            true
        }
    }

    /// The button task, bound to the button's interrupt vector: log
    /// `External interrupt <count>!`, advance the counter, request one
    /// toggle (dropped silently if one is already queued), and clear the
    /// pending bit before returning, so the vector cannot re-fire on a
    /// stale latch.
    pub fn button_event(&mut self)
        requires
            old(self)@.exti_pending,
            old(self)@.count < u32::MAX,
        ensures
            final(self)@ == button_step(old(self)@),
            !final(self)@.exti_pending,
    {
        self.log.push(LogEntry::ExternalInterrupt(self.count));
        self.count = self.count + 1;
        let _ = self.spawn_toggle();
        self.exti_pending = false;
        proof {
            assert(self@ =~= button_step(old(self)@));
        }
    }

    /// The toggle task, run once per accepted spawn: advance the phase
    /// flag, then drive the LED high when the new flag is even and low
    /// when it is odd.
    pub fn toggle_led(&mut self)
        requires
            old(self)@.toggle_queued,
            old(self)@.flag < u32::MAX,
        ensures
            final(self)@ == toggle_step(old(self)@),
    {
        self.toggle_queued = false;
        self.flag = self.flag + 1;
        if self.flag % 2 == 0 {
            self.led = Level::High;
        } else {
            self.led = Level::Low;
        }
        proof {
            assert(self@ =~= toggle_step(old(self)@));
        }
    }

    /// Service one well-separated press from a quiet system: the edge
    /// latches the pending bit, the dispatcher runs the button task, then
    /// the toggle it requested, and the system goes quiet again. One log
    /// line is emitted, carrying the counter, and the LED moves to the
    /// parity of the new flag.
    pub fn service_press(&mut self)
        requires
            quiescent(old(self)@),
            old(self)@.count < u32::MAX,
            old(self)@.flag < u32::MAX,
        ensures
            quiescent(final(self)@),
            final(self)@.count == old(self)@.count + 1,
            final(self)@.flag == old(self)@.flag + 1,
            final(self)@.log == old(self)@.log.push(
                LogEntry::ExternalInterrupt(old(self)@.count as u32),
            ),
            final(self)@.led == (if (old(self)@.flag + 1) % 2 == 0 {
                Level::High
            } else {
                Level::Low
            }),
    {
        self.on_edge();
        let _ = self.dispatch_next();
        let _ = self.dispatch_next();
    }

    /// Service `n` well-separated presses in a row. The log grows by the
    /// counter values `count, count + 1, ...` in order, the toggle task
    /// runs once per press, and the LED ends at the parity of the final
    /// flag. The bounds ask only what the 32-bit statics force.
    pub fn press_many(&mut self, n: u32)
        requires
            quiescent(old(self)@),
            old(self)@.count + n <= u32::MAX,
            old(self)@.flag + n <= u32::MAX,
        ensures
            quiescent(final(self)@),
            final(self)@.count == old(self)@.count + n,
            final(self)@.flag == old(self)@.flag + n,
            final(self)@.log.len() == old(self)@.log.len() + n,
            forall|j: int|
                0 <= j < old(self)@.log.len() ==> final(self)@.log[j] == old(self)@.log[j],
            forall|j: int|
                old(self)@.log.len() <= j < final(self)@.log.len() ==> final(self)@.log[j]
                    == LogEntry::ExternalInterrupt(
                    (old(self)@.count + j - old(self)@.log.len()) as u32,
                ),
            final(self)@.led == (if n == 0 {
                old(self)@.led
            } else if (old(self)@.flag + n) % 2 == 0 {
                Level::High
            } else {
                Level::Low
            }),
    {
        let mut i: u32 = 0;
        while i < n
            invariant
                i <= n,
                quiescent(self@),
                old(self)@.count + n <= u32::MAX,
                old(self)@.flag + n <= u32::MAX,
                self@.count == old(self)@.count + i,
                self@.flag == old(self)@.flag + i,
                self@.log.len() == old(self)@.log.len() + i,
                forall|j: int|
                    0 <= j < old(self)@.log.len() ==> self@.log[j] == old(self)@.log[j],
                forall|j: int|
                    old(self)@.log.len() <= j < self@.log.len() ==> self@.log[j]
                        == LogEntry::ExternalInterrupt(
                        (old(self)@.count + j - old(self)@.log.len()) as u32,
                    ),
                self@.led == (if i == 0 {
                    old(self)@.led
                } else if (old(self)@.flag + i) % 2 == 0 {
                    Level::High
                } else {
                    Level::Low
                }),
            decreases n - i,
        {
            self.service_press();
            i = i + 1;
        }
    }

    /// One dispatcher step: run the ready task to completion and report
    /// which one ran; with nothing ready the core stays in idle.
    pub fn dispatch_next(&mut self) -> (ran: Option<Task>)
        requires
            old(self)@.exti_pending ==> old(self)@.count < u32::MAX,
            old(self)@.toggle_queued ==> old(self)@.flag < u32::MAX,
        ensures
            final(self)@ == run_step(old(self)@),
            ran == ready_task(old(self)@),
    {
        if self.exti_pending && (!self.toggle_queued || self.button_first) {
            self.button_event();
            Some(Task::Button)
        } else if self.toggle_queued {
            self.toggle_led();
            Some(Task::Toggle)
        } else {
            None
        }
    }
}

} // verus!
