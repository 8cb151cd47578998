//! Control-plane core for a local container runtime: classifies runtime
//! failures, plans container creation, maps the runtime's wire data into
//! stable domain models, and decides each step of a streamed image pull.

pub mod text;
pub mod error;
pub mod types;
pub mod containers;
pub mod image;
