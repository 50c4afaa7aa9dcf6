//! Control core of a pager that streams its input into a text editor over a
//! remote-procedure-call session: the decisions of the session establisher,
//! the process spawner, the notification bridge, the instance registry and the
//! buffer title manager, as functions from plain values to plain values.

pub mod address;
pub mod commands;
pub mod decimal;
pub mod notification;
pub mod queue;
pub mod registry;
pub mod session;
pub mod spawn;
pub mod text;
pub mod title;
pub mod value;
pub mod variables;
