//! Core of a sandboxed code-execution judge.
//!
//! Untrusted submitted source code is compiled, run under CPU-time, memory
//! and output-size limits inside an isolated, privilege-dropped OS process,
//! and the outcome is classified. This crate holds the decision core: the
//! resource quantities, the layered result taxonomy with its promotion
//! rules, the per-run and interactive-run session state machines, and the
//! orchestrators that compose compilation, session setup and runs into the
//! four judging modes. The surrounding OS work (process spawning, control
//! groups, temporary directories) is driven by an unverified host that
//! performs each action the machines request and feeds the observed event
//! back.

pub mod quantity;
pub mod settings;
pub mod program;
pub mod result;
pub mod framing;
pub mod text;
pub mod cgroup;
pub mod session;
