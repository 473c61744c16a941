//! Query entrypoints consumed by the query-resolution layer.

use vstd::prelude::*;

use crate::edge::Proof;
use crate::graph::Edge;
use crate::error::Error;
use crate::store::{GraphStore, ProofRecord, is_first_proof_uuid_match, no_proof_uuid_match};
use crate::util::{parse_uuid, uuid_of_str};

verus! {

/// Query entrypoint for `Proof` / `ProofRecord`.
pub struct ProofQuery {}

impl Default for ProofQuery {
    fn default() -> (r: Self)
        ensures
            r == (ProofQuery {  }),
    {
        ProofQuery {  }
    }
}

impl ProofQuery {
    /// Look a proof edge up by its UUID string. An absent UUID is not an
    /// error and finds nothing; an unparsable UUID is rejected before the
    /// store is consulted; an unused UUID finds nothing, without error.
    pub fn proof_by_uuid(&self, store: &GraphStore, uuid: Option<String>) -> (r: Result<
        Option<ProofRecord>,
        Error,
    >)
        ensures
            match uuid {
                None => r matches Ok(found) && found is None,
                Some(s) => match uuid_of_str(s@) {
                    None => r matches Err(e) && e is ParamError,
                    Some(u) => r matches Ok(found) && match found {
                        Some(rec) => is_first_proof_uuid_match(store.proofs@, rec, u),
                        None => no_proof_uuid_match(store.proofs@, u),
                    },
                },
            },
    {
        let s = match uuid {
            None => {
                return Ok(None);
            },
            Some(s) => s,
        };
        match parse_uuid(s.as_str()) {
            None => Err(Error::ParamError("invalid uuid: ".to_owned().concat(s.as_str()))),
            Some(u) => Proof::find_by_uuid(store, u),
        }
    }
}

} // verus!
