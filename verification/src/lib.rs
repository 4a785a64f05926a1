use vstd::prelude::*;

pub mod admin;
pub mod audio;
pub mod batches;
pub mod beta;
pub mod chat;
pub mod common;
pub mod containers;
pub mod conversations;
pub mod completions;
pub mod embeddings;
pub mod error;
pub mod evals;
pub mod families;
pub mod files;
pub mod fine_tuning;
pub mod graders;
pub mod ids;
pub mod images;
pub mod json;
pub mod literal;
pub mod models;
pub mod query;
pub mod request;
pub mod sse;
pub mod text;

verus! {
} // verus!
