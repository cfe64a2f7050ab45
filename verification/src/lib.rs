//! Verified core of a small XOR network trainer.
//!
//! The network itself is tiny and fixed: two inputs, two sigmoid hidden
//! units, one sigmoid output, trained by full-batch gradient descent on the
//! four-example XOR truth table, once per seed in a fixed seed list. The
//! numerical work runs on `f64` arrays outside this crate; what is verified
//! here is everything around it that can be stated exactly:
//!
//! - the XOR dataset ([`dataset`]),
//! - the shape calculus of the forward/backward/update pipeline ([`dims`]),
//! - the run schedule over the seed list ([`schedule`]),
//! - the runtime report written at the end ([`report`]).

pub mod dataset;
pub mod dims;
pub mod report;
pub mod schedule;
