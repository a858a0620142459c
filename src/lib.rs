//! Replay of recorded filesystem system-call programs.
//!
//! The library holds the program model, the resolution of arguments, the
//! coercion of values into the primitive shapes that kernel entry points take,
//! the rewriting of program paths under a mount point, the table that turns a
//! syscall into a fully shaped kernel call, and the bookkeeping of a replay
//! run. Making the calls is left to the caller.
pub mod model;
pub mod coerce;
pub mod resolve;
pub mod dispatch;
pub mod replay;
