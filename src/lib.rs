//! A tracer of DNS delegation: it walks the authority chain one server at a
//! time, depth first, and says at each hop whether the server answered,
//! referred elsewhere, or gave nothing.
//!
//! `driver` holds the walk as a state machine that asks its caller for one
//! query or one nameserver lookup at a time; `format` holds the lines it
//! produces.

pub mod driver;
pub mod format;
