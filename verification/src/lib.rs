//! Dataset session engine: one namespace of named tabular datasets over a
//! persistent SQL table store and a table of lazy computation graphs.
//!
//! - [`filter`] compiles structured filters into the text of a predicate.
//! - [`storage`] gives the statements that the persistent store is asked to
//!   run.
//! - [`session`] decides where a dataset lives, names what is derived from
//!   it, and plans each operation; [`plans`] holds what it hands back,
//!   [`queries`] the queries of its transformations, and [`names`] the
//!   names of their results.
//! - [`command`] holds what the front ends share.

pub mod command;
pub mod error;
pub mod filter;
pub mod frames;
pub mod names;
pub mod numeric;
pub mod paths;
pub mod plans;
pub mod queries;
pub mod session;
pub mod storage;
pub mod text;
pub mod transient;

pub use error::RustoraError;
pub use filter::{FilterCondition, FilterLogic, FilterOperator, FilterSpec};
pub use session::{DatasetInfo, RustoraSession};
pub use storage::{DuckStorage, TableInfo};
