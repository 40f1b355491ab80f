//! Copy-on-write directory cloning with explicit semantics: the decisions,
//! the orders, the accounting and the text formats of `clonedir`.
//!
//! A clone is checked before anything is created ([`preflight`]), then run
//! ([`run::CloneRun`]): stale stages are swept, a stage is created, the
//! source is walked into it ([`walk::Walk`]), checked, published, and the
//! stage removed. Trees are removed by [`removal`] and measured by
//! [`survey`]. The caller does the file system work, on Linux or macOS
//! ([`sys::Platform`]), and hands each outcome to these state machines,
//! which decide what happens next. [`cli`] reads the command line and
//! [`report`] writes what the command prints.

pub mod cli;
pub mod error;
pub mod measure;
pub mod options;
pub mod order;
pub mod plan;
pub mod removal;
pub mod preflight;
pub mod report;
pub mod run;
pub mod stage;
pub mod survey;
pub mod sys;
pub mod text;
pub mod walk;

pub use error::{Error, ErrorKind, IoErrorKind, IoFailure};
pub use measure::Usage;
pub use options::{Fallback, Options};
pub use plan::Plan;
pub use stage::STAGE_PREFIX;
pub use sys::{is_unclonable, sharing, Filesystem, Platform, Sharing};
pub use walk::Receipt;
