//! Interactive maintenance-task session: a checklist of named commands, a
//! cursor over it, a log of the current run, key mapping, the event-loop
//! decisions and a plain screen model that a terminal front end can draw.

pub mod session;
pub mod input;
pub mod event_loop;
pub mod render;
pub mod catalog;
