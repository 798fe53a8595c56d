//! A host-execution harness core for a compiler's intermediate
//! representation: it validates a function's signature against the host's
//! default calling convention, places compiled machine code in executable
//! memory under a strict writable-then-executable discipline, and interprets
//! the single value the code returns as a pass/fail/error test outcome.

pub mod hexfmt;
pub mod outcome;
pub mod page;
pub mod runner;
pub mod sig;

pub use outcome::RawValue;
pub use runner::{Action, FunctionRunner, Stage};
pub use sig::{CallConv, FunctionInfo, ValueType};
