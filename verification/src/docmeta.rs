//! Types to describe information about downloaded directory documents,
//! without necessarily having the full document.

use vstd::prelude::*;

verus! {

/// Name for the SHA3-256 digest of a byte sequence: a function of the
/// bytes alone, thirty-two bytes long.
pub uninterp spec fn sha3_256_of(data: Seq<u8>) -> Seq<u8>;

/// Relies on sha3::Sha3_256 through its digest interface: the SHA3-256
/// digest of the input bytes.
#[verifier::external_body]
fn sha3_256(data: &[u8]) -> (r: [u8; 32])
    ensures
        r@ == sha3_256_of(data@),
{
    <sha3::Sha3_256 as sha3::Digest>::digest(data).into()
}

/// Compute the SHA3-256 digests of `signed_part` on its own, and of
/// `signed_part` concatenated with `remainder`.
pub fn sha3_dual(signed_part: &[u8], remainder: &[u8]) -> (r: ([u8; 32], [u8; 32]))
    ensures
        r.0@ == sha3_256_of(signed_part@),
        r.1@ == sha3_256_of(signed_part@ + remainder@),
{
    let sha3_of_signed = sha3_256(signed_part);
    let mut whole: Vec<u8> = Vec::new();
    let mut i: usize = 0;
    while i < signed_part.len()
        invariant
            i <= signed_part.len(),
            whole@ == signed_part@.take(i as int),
        decreases signed_part.len() - i,
    {
        whole.push(signed_part[i]);
        i += 1;
        proof {
            assert(whole@ =~= signed_part@.take(i as int));
        }
    }
    let mut j: usize = 0;
    while j < remainder.len()
        invariant
            j <= remainder.len(),
            whole@ == signed_part@ + remainder@.take(j as int),
        decreases remainder.len() - j,
    {
        whole.push(remainder[j]);
        j += 1;
        proof {
            assert(whole@ =~= signed_part@ + remainder@.take(j as int));
        }
    }
    proof {
        assert(signed_part@.take(signed_part@.len() as int) =~= signed_part@);
        assert(remainder@.take(remainder@.len() as int) =~= remainder@);
    }
    let sha3_of_whole = sha3_256(whole.as_slice());
    (sha3_of_signed, sha3_of_whole)
}

/// The time over which a consensus is valid: three instants, in seconds
/// since the Unix epoch.
#[derive(Debug, Clone, Copy, PartialEq, Eq, Structural)]
pub struct Lifetime {
    /// When the consensus becomes valid.
    pub valid_after: u64,
    /// When a fresher consensus is expected.
    pub fresh_until: u64,
    /// When the consensus stops being valid.
    pub valid_until: u64,
}

/// Information about a consensus that we have in storage.
///
/// This information is ordinarily derived from the consensus, but does not
/// have to be.
pub struct ConsensusMeta {
    /// The time over which the consensus is valid.
    lifetime: Lifetime,
    /// A SHA3-256 digest of the signed portion of the consensus: used for
    /// fetching diffs.
    sha3_256_of_signed: [u8; 32],
    /// A SHA3-256 digest of the entirety of the consensus: used for naming
    /// the file.
    sha3_256_of_whole: [u8; 32],
}

impl ConsensusMeta {
    /// The lifetime this metadata records.
    pub closed spec fn spec_lifetime(&self) -> Lifetime {
        self.lifetime
    }

    /// The digest of the signed portion that this metadata records.
    pub closed spec fn spec_sha3_of_signed(&self) -> Seq<u8> {
        self.sha3_256_of_signed@
    }

    /// The digest of the whole document that this metadata records.
    pub closed spec fn spec_sha3_of_whole(&self) -> Seq<u8> {
        self.sha3_256_of_whole@
    }

    /// Create a new `ConsensusMeta` from its parts.
    pub fn new(
        lifetime: Lifetime,
        sha3_256_of_signed: [u8; 32],
        sha3_256_of_whole: [u8; 32],
    ) -> (r: Self)
        ensures
            r.spec_lifetime() == lifetime,
            r.spec_sha3_of_signed() == sha3_256_of_signed@,
            r.spec_sha3_of_whole() == sha3_256_of_whole@,
    {
        ConsensusMeta { lifetime, sha3_256_of_signed, sha3_256_of_whole }
    }

    /// Derive a new `ConsensusMeta` from the text of a consensus — its
    /// signed portion and the remainder — and the lifetime read from it.
    pub fn from_signed_text(lifetime: Lifetime, signed_part: &[u8], remainder: &[u8]) -> (r: Self)
        ensures
            r.spec_lifetime() == lifetime,
            r.spec_sha3_of_signed() == sha3_256_of(signed_part@),
            r.spec_sha3_of_whole() == sha3_256_of(signed_part@ + remainder@),
    {
        let (sd, wd) = sha3_dual(signed_part, remainder);
        ConsensusMeta::new(lifetime, sd, wd)
    }

    /// Return the lifetime of this `ConsensusMeta`.
    pub fn lifetime(&self) -> (r: &Lifetime)
        ensures
            *r == self.spec_lifetime(),
    {
        &self.lifetime
    }

    /// Return the SHA3-256 of the signed portion of this consensus.
    pub fn sha3_256_of_signed(&self) -> (r: &[u8; 32])
        ensures
            r@ == self.spec_sha3_of_signed(),
    {
        &self.sha3_256_of_signed
    }

    /// Return the SHA3-256 of the entirety of this consensus.
    pub fn sha3_256_of_whole(&self) -> (r: &[u8; 32])
        ensures
            r@ == self.spec_sha3_of_whole(),
    {
        &self.sha3_256_of_whole
    }
}

} // verus!
