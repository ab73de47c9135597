//! Core timing logic for a one-on-one combat-sport match: a regulation
//! period with an engagement tracker and penalty accounting, and a
//! sudden-death overtime protocol whose round outcomes feed an automatic
//! win decision. Everything here is event-driven and free of input/output:
//! callers hand in discrete events and clock readings in milliseconds, and
//! read the machine back through snapshot queries.

pub mod clock;
pub mod conservation;
pub mod model;
pub mod segments;
pub mod stage;
pub mod timer;
