//! The decisions behind a point-and-click front-end for systemd units:
//! how a unit file name is shown, what each button asks of the backend,
//! and what the interface does with the answer.
//!
//! Nothing here draws a widget or talks to the init system. The caller owns
//! the toolkit and the backend; it hands over plain values (names, labels,
//! replies) and carries out what comes back.

pub mod dispatch;
pub mod layout;
pub mod unit;
pub mod unit_name;
pub mod window;
