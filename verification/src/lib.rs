//! Checks a kernel configuration against a list of required option states.
//!
//! The crate is organised around the lattice of option states ([`kconfig`]),
//! the scanner that finds one symbol in the lines of a kernel configuration
//! ([`scanner`]), the kernel configuration itself ([`kernel`]), the
//! aggregation of requirement documents into one ordered check list
//! ([`config`]), and the check of the one against the other ([`check`]).
//!
//! Nothing here reads a file. Where a file is needed, the library says
//! which, and takes its contents.

pub mod check;
pub mod config;
pub mod error;
pub mod kconfig;
pub mod kernel;
pub mod roundtrip;
pub mod scanner;
pub mod text;
pub mod util;

pub use check::{CheckResult, Kcheck, KcheckBuilder, KcheckConfigResult};
pub use error::{KcheckError, KcheckResult};
