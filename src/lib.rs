//! The verified core of a crash recorder: the diagnostic line written for each fault, and the
//! rule by which the shared log file is truncated by a run's first record and appended to by
//! every later one.

pub mod lifecycle;
pub mod message;
