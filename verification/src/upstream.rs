//! Platform and data-source enumerations shared by every connector, and
//! the normalized result unit a connector emits per discovered link.

use vstd::prelude::*;

use crate::edge::Proof;
use crate::identity::Identity;

verus! {

/// The normalized unit a fetcher emits per discovered link: the two
/// identities and the proof connecting them. Ephemeral: persisted only as
/// the side effect of materializing its three parts.
#[derive(Debug)]
pub struct Connection {
    /// The subject that was looked up.
    pub from: Identity,
    /// The linked account.
    pub to: Identity,
    /// The proof linking the two.
    pub proof: Proof,
}

/// An account namespace: which kind of platform an identity lives on.
///
/// Closed enumeration; an upstream item naming a platform outside this
/// list is skipped by connectors, never a fatal error.
#[derive(Clone, Copy, Debug, PartialEq, Eq, Structural, Hash)]
pub enum Platform {
    Keybase,
    Twitter,
    Ethereum,
}

/// The upstream service that asserted a proof. May differ from the
/// platforms of the two identities the proof links.
#[derive(Clone, Copy, Debug, PartialEq, Eq, Structural, Hash)]
pub enum DataSource {
    Keybase,
    NextID,
    SybilList,
}

/// Which `Platform` a platform string of an upstream response names,
/// if any.
pub open spec fn platform_of(s: Seq<char>) -> Option<Platform> {
    if s == "keybase"@ {
        Some(Platform::Keybase)
    } else if s == "twitter"@ {
        Some(Platform::Twitter)
    } else if s == "ethereum"@ {
        Some(Platform::Ethereum)
    } else {
        None
    }
}

/// The canonical name of a `Platform`.
pub open spec fn platform_name(p: Platform) -> Seq<char> {
    match p {
        Platform::Keybase => "keybase"@,
        Platform::Twitter => "twitter"@,
        Platform::Ethereum => "ethereum"@,
    }
}

/// The canonical name of a `DataSource`.
pub open spec fn data_source_name(s: DataSource) -> Seq<char> {
    match s {
        DataSource::Keybase => "keybase"@,
        DataSource::NextID => "nextid"@,
        DataSource::SybilList => "sybil_list"@,
    }
}

/// Character-wise string comparison.
pub fn str_eq(a: &str, b: &str) -> (r: bool)
    ensures
        r == (a@ == b@),
{
    let a_len = a.unicode_len();
    let b_len = b.unicode_len();
    if a_len != b_len {
        assert(a@ != b@) by {
            assert(a@.len() != b@.len());
        }
        return false;
    }
    let mut i: usize = 0;
    while i < a_len
        invariant
            i <= a_len,
            a_len == a@.len(),
            b_len == b@.len(),
            a_len == b_len,
            forall|j: int| 0 <= j < i ==> a@[j] == b@[j],
        decreases a_len - i,
    {
        if a.get_char(i) != b.get_char(i) {
            return false;
        }
        i += 1;
    }
    proof {
        assert(a@ =~= b@);
    }
    true
}

impl Platform {
    /// Parse a platform string of an upstream response; exactly the
    /// strings of the closed enumeration are accepted.
    pub fn from_str(s: &str) -> (r: Option<Platform>)
        ensures
            r == platform_of(s@),
    {
        proof {
            reveal_strlit("keybase");
            reveal_strlit("twitter");
            reveal_strlit("ethereum");
        }
        if str_eq(s, "keybase") {
            Some(Platform::Keybase)
        } else if str_eq(s, "twitter") {
            Some(Platform::Twitter)
        } else if str_eq(s, "ethereum") {
            Some(Platform::Ethereum)
        } else {
            None
        }
    }

    /// The canonical name of this platform.
    pub fn name(&self) -> (r: String)
        ensures
            r@ == platform_name(*self),
    {
        match self {
            Platform::Keybase => "keybase".to_owned(),
            Platform::Twitter => "twitter".to_owned(),
            Platform::Ethereum => "ethereum".to_owned(),
        }
    }
}

impl DataSource {
    /// The canonical name of this data source.
    pub fn name(&self) -> (r: String)
        ensures
            r@ == data_source_name(*self),
    {
        match self {
            DataSource::Keybase => "keybase".to_owned(),
            DataSource::NextID => "nextid".to_owned(),
            DataSource::SybilList => "sybil_list".to_owned(),
        }
    }
}

} // verus!
