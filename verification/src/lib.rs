//! Outcomes with three possible states: a clean success, a success that
//! carries a warning, and a failure.
//!
//! [`WOK`] holds a success or a warning. [`WarnResult`] adds the failure arm.
//! Both convert into each other and into `Result`, and the functions of
//! [`propagate`] decide, at one point of a computation, whether it goes on
//! or leaves with a warning or an error.

pub mod convert;
pub mod laws;
pub mod outcome;
pub mod propagate;
pub mod wok;

pub use outcome::WarnResult;
pub use propagate::{warn_try_sc_error, warn_try_sc_error_result, warn_try_sc_warning};
pub use wok::WOK;
