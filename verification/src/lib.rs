//! Verified core of an interrupt-driven button-and-LED controller.
//!
//! A rising edge on the button line latches a pending bit in the external
//! interrupt controller. The button task logs the event count and requests
//! one LED toggle; the toggle task advances a phase flag and drives the LED
//! by the flag's parity. Tasks share one priority level and run to
//! completion, so the dispatcher serialises them in the order they became
//! ready. The hardware itself (GPIO, clock tree, debug transport) lives
//! outside this crate; here its state is modelled as plain values so that
//! the dispatch logic can be proved.

pub mod clock;
pub mod laws;
pub mod machine;
pub mod model;
pub mod registry;
