//! Documentation synthesis from static-analysis results.
//!
//! Given per-file symbol lists, an optional control-flow graph per file and a
//! list of detected vulnerabilities, the library decides which diagram best
//! describes each file, renders bounded diagram descriptors, reconstructs
//! vulnerability traces and ranks per-file security hotspots.

pub mod calls;
pub mod depgraph;
pub mod diagram;
pub mod flowchart;
pub mod generator;
pub mod hotspot;
pub mod laws;
pub mod owasp;
pub mod relations;
pub mod sequence;
pub mod severity;
pub mod signals;
pub mod site;
pub mod symbols;
pub mod text;
pub mod trace;
pub mod usage;
