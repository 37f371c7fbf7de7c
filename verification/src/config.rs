//! The deployment configuration: loaded once at process start and
//! immutable for the run.

use vstd::prelude::*;

verus! {

/// The deployment configuration: the logical application name, the
/// remote host, the registry URL, optional extra files to transfer and
/// an optional pre-build shell script body.
pub struct DepConfig {
    pub name: String,
    pub server: String,
    pub registry: String,
    pub additional_files: Option<Vec<String>>,
    pub build: Option<String>,
}

} // verus!
