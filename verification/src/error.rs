//! Error taxonomy of the library.

use vstd::prelude::*;

verus! {

/// Errors surfaced by the graph core and the connectors.
///
/// - `ParamError`: malformed input (an unparsable UUID or URI), rejected
///   before any store or upstream work.
/// - `General`: an upstream fetch failed; carries the upstream's own
///   diagnostic message and the HTTP status code of the exchange.
/// - `NoResult`: the upstream could not resolve the requested subject at
///   all (distinct from "subject exists with zero proofs").
/// - `Store`: a failure reported by the graph store, such as an edge
///   endpoint that resolves to no vertex record.
#[derive(Debug)]
pub enum Error {
    ParamError(String),
    General(String, u16),
    NoResult,
    Store(String),
}

impl Error {
    /// Human-readable message, in place of a `Display` impl.
    pub fn message(&self) -> (r: String)
        ensures
            match self {
                Error::ParamError(m) => r@ == m@,
                Error::General(m, _) => r@ == m@,
                Error::NoResult => r@ == "no result"@,
                Error::Store(m) => r@ == m@,
            },
    {
        match self {
            Error::ParamError(m) => m.clone(),
            Error::General(m, _) => m.clone(),
            Error::NoResult => "no result".to_owned(),
            Error::Store(m) => m.clone(),
        }
    }
}

} // verus!
