//! Redeployment of a small, operator-defined set of containerized services.
//!
//! The library holds the verified core: the deployment pipeline (an explicit
//! status state machine that orders staging, clone-or-pull, copy, tag-rewrite,
//! stop and start operations), the event bus that fans status transitions out
//! to subscribers, docker discovery and correlation, the staging manager's
//! idempotent directory primitive, and the compose-file tagger. Process
//! invocation, file handling, HTTP routing and persistence are left to the
//! surrounding application, which drives the state machine and hands its
//! results back as plain values.

pub mod bus;
pub mod compose;
pub mod docker;
pub mod html;
pub mod pipeline;
pub mod service;
pub mod staging;
pub mod status;
pub mod text;
pub mod traces;
