//! Deferred worktree operations of the Herdr terminal multiplexer.

pub mod app;
pub mod app_laws;
pub mod branch_out;
pub mod branch_out_finish;
pub mod branch_out_finish_laws;
pub mod branch_out_job;
pub mod branch_out_job_laws;
pub mod branch_out_laws;
pub mod branch_out_start_laws;
pub mod create;
pub mod create_finish;
pub mod create_finish_laws;
pub mod create_laws;
pub mod law_terms;
pub mod laws;
pub mod ledger;
pub mod model;
pub mod path;
pub mod path_laws;
pub mod path_shape_laws;
pub mod pending;
pub mod prefix;
pub mod prefix_laws;
pub mod protocol;
pub mod remove;
pub mod remove_finish;
pub mod remove_finish_laws;
pub mod remove_laws;
pub mod source;
pub mod source_laws;
pub mod text;
