//! A set-once, read-many cell with a bounded polling wait.
//!
//! The cell starts empty and is published at most once. A reader that arrives
//! before the value polls at a fixed interval, a bounded number of times, and
//! fails with a diagnosable error if the value never appears. The library
//! decides; sleeping between attempts and sharing the cell among threads are
//! left to the caller, who performs each action the library hands back.

pub mod policy;
pub mod wait;
pub mod cell;
pub mod text;
pub mod args;
