//! An authorization decision service built around the Cedar policy engine:
//! artifact loading, request checking, evaluation-context construction,
//! response assembly and request dispatch, each with a verified contract.

pub mod engine;
pub mod artifacts;
pub mod response;
pub mod request;
pub mod context;
pub mod pipeline;
pub mod dispatch;
