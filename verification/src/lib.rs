//! A process-supervision library: the decision core of a utility that runs an
//! external command, retries it with a configurable backoff delay when it
//! exits unsuccessfully, and forwards termination-class signals to the
//! running child.
//!
//! The library is the supervision state machine alone. Spawning, waiting,
//! sleeping and signal delivery are performed by the embedding program, which
//! asks the machine for the next operation ([`machine::Op`]), performs it,
//! and feeds the outcome back as an event ([`machine::Event`]).

pub mod config;
pub mod delay;
pub mod machine;
pub mod runs;
