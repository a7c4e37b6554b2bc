//! Project scaffolding: which directories, files and tool invocations a
//! request calls for, and how a run of those steps proceeds.
pub mod plan;
pub mod run;
pub mod text;
