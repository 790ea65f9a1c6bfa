//! Core of a compile-serving gateway: a task manager that bounds concurrent
//! use of a single expensive compilation backend and supersedes stale work, a
//! response pipeline that classifies backend outcomes, and an artifact
//! extractor that materializes compiled archives and resolves the generated
//! glue file.

pub mod errors;
pub mod extractor;
pub mod manager;
pub mod pipeline;
