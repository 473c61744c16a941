//! Identity graph core: typed vertices (platform identities) linked by
//! directed proof edges with provenance, plus connectors that normalize
//! upstream responses into graph mutations.

pub mod edge;
pub mod error;
pub mod graph;
pub mod identity;
pub mod keybase;
pub mod laws;
pub mod query;
pub mod store;
pub mod upstream;
pub mod util;
