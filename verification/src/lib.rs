//! Deployment orchestrator library: derives a catalog of buildable
//! containers from a compose manifest, rewrites the manifest to reference
//! built images, and plans the build/push/deploy command pipeline.

pub mod config;
pub mod context;
pub mod dockerfile;
pub mod manifest;
pub mod order;
pub mod parse;
pub mod pipeline;
pub mod rewrite;
pub mod version;
