//! Planning, validation and policy logic for organizing a folder: a request is
//! parsed into an intent, turned into a plan of filesystem operations, checked
//! against the filesystem and the user's constraints, and put before a policy.
pub mod text;
pub mod path;
pub mod snapshot;
pub mod intent;
pub mod analysis;
pub mod plan;
pub mod proposal_converter;
pub mod validate;
pub mod policy;
pub mod executor;
pub mod verification;
pub mod recommendation;
pub mod clarification;
pub mod proposal_refiner;
pub mod pipeline;
pub mod operation_guard;
pub mod proposal_refinement_parser;
pub mod proposal_refinement_service;
