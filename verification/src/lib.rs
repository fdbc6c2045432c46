//! Version-aware command dispatch for a monorepo build tool: splitting the
//! command line, inferring the repository root and its mode, and deciding
//! which installed copy of the tool runs the command.

pub mod text;
pub mod args;
pub mod args_proofs;
pub mod paths;
pub mod version;
pub mod repo;
pub mod locate;
pub mod walk;
pub mod infer;
pub mod infer_proofs;
pub mod local;
pub mod dispatch;
pub mod dispatch_proofs;
