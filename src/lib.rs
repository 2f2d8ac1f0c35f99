//! A periodic screen-break reminder.
//!
//! The library holds the decisions of both processes: the countdown that the
//! full-screen display runs, and the supervisor that sleeps, launches the
//! display and counts failed launches. The binary around it performs the
//! sleeping, spawning and drawing that these decisions ask for.

pub mod text;
pub mod config;
pub mod countdown;
pub mod launch;
pub mod supervisor;
