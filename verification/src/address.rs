//! Content identifiers held as plain values.

use vstd::prelude::*;

verus! {

/// The largest digest, in bytes, that a [`Cid`] can hold.
pub const MAX_DIGEST_LEN: usize = 64;

/// What a [`Cid`] stands for: a content-type tag, a hash-function tag and the
/// digest bytes. Two identifiers are the same exactly when these three agree.
pub struct CidModel {
    pub codec: u64,
    pub mh_code: u64,
    pub digest: Seq<u8>,
}

/// A content identifier: the address of persisted bytes.
///
/// The digest lives in a fixed buffer of [`MAX_DIGEST_LEN`] bytes of which the
/// first `size` are in use and the rest are zero, so the type is `Copy` and
/// field-wise equality is equality of the identifiers.
#[derive(Clone, Copy, Debug, PartialEq, Eq, Hash)]
pub struct Cid {
    codec: u64,
    mh_code: u64,
    size: u8,
    digest: [u8; 64],
}

impl View for Cid {
    type V = CidModel;

    closed spec fn view(&self) -> CidModel {
        CidModel {
            codec: self.codec,
            mh_code: self.mh_code,
            digest: self.digest@.take(self.size as int),
        }
    }
}

impl Cid {
    /// The digest fits its buffer and the unused tail of the buffer is zero.
    #[verifier::type_invariant]
    pub closed spec fn wf(self) -> bool {
        &&& self.size <= MAX_DIGEST_LEN
        &&& forall|i: int| self.size <= i < MAX_DIGEST_LEN ==> self.digest@[i] == 0
    }

    /// Builds an identifier from its three parts, or `None` when the digest
    /// is longer than [`MAX_DIGEST_LEN`].
    pub fn new(codec: u64, mh_code: u64, digest: &[u8]) -> (r: Option<Cid>)
        ensures
            r is Some <==> digest@.len() <= MAX_DIGEST_LEN,
            r matches Some(k) ==> k.wf() && k@ == (CidModel { codec, mh_code, digest: digest@ }),
    {
        let n: usize = digest.len();
        if n > MAX_DIGEST_LEN {
            return None;
        }
        let mut buf: [u8; 64] = [0u8; 64];
        let mut i: usize = 0;
        while i < MAX_DIGEST_LEN
            invariant
                i <= MAX_DIGEST_LEN,
                n == digest@.len(),
                n <= MAX_DIGEST_LEN,
                forall|j: int| 0 <= j < i && j < n ==> buf@[j] == digest@[j],
                forall|j: int| n <= j < i ==> buf@[j] == 0,
            decreases MAX_DIGEST_LEN - i,
        {
            buf[i] = if i < n {
                digest[i]
            } else {
                0
            };
            i += 1;
        }
        let k = Cid { codec, mh_code, size: n as u8, digest: buf };
        assert(k@.digest =~= digest@);
        Some(k)
    }

    /// The content-type tag.
    pub fn codec(&self) -> (r: u64)
        ensures
            r == self@.codec,
    {
        self.codec
    }

    /// The hash-function tag.
    pub fn mh_code(&self) -> (r: u64)
        ensures
            r == self@.mh_code,
    {
        self.mh_code
    }

    /// The digest bytes.
    pub fn digest(&self) -> (r: Vec<u8>)
        ensures
            r@ == self@.digest,
    {
        proof {
            use_type_invariant(self);
        }
        let n: usize = self.size as usize;
        let mut out: Vec<u8> = Vec::new();
        let mut i: usize = 0;
        while i < n
            invariant
                i <= n <= MAX_DIGEST_LEN,
                n == self.size,
                out@ == self.digest@.take(i as int),
            decreases n - i,
        {
            out.push(self.digest[i]);
            assert(self.digest@.take(i + 1) =~= self.digest@.take(i as int).push(self.digest@[i as int]));
            i += 1;
        }
        out
    }

    /// Identifiers are equal exactly when their three parts are.
    pub proof fn lemma_eq_by_parts(a: Cid, b: Cid)
        requires
            a.wf(),
            b.wf(),
        ensures
            a == b <==> (a@.codec == b@.codec && a@.mh_code == b@.mh_code && a@.digest == b@.digest),
    {
        if a@.codec == b@.codec && a@.mh_code == b@.mh_code && a@.digest == b@.digest {
            assert(a.size == b.size) by {
                assert(a@.digest.len() == a.size);
                assert(b@.digest.len() == b.size);
            }
            assert forall|i: int| 0 <= i < 64 implies a.digest@[i] == b.digest@[i] by {
                if i < a.size {
                    assert(a@.digest[i] == a.digest@[i]);
                    assert(b@.digest[i] == b.digest@[i]);
                }
            }
            assert(a.digest =~= b.digest);
        }
    }
}

/// The identifier that the `cid` crate reads from `bytes`, or `None` where it
/// rejects them.
pub uninterp spec fn cid_from_bytes(bytes: Seq<u8>) -> Option<CidModel>;

/// The bytes that the `cid` crate writes for a version-1 identifier.
pub uninterp spec fn cid_to_bytes(k: CidModel) -> Seq<u8>;

/// Calls `cid::Cid::try_from(&[u8])`, which reads a binary CID, and moves its
/// codec, hash code and digest into a [`Cid`]. The claim: success and the parts
/// read are a function of the bytes alone, named [`cid_from_bytes`]. The
/// buffer comes from `Multihash<64>`, which zero-fills it past the digest.
#[verifier::external_body]
pub(crate) fn parse_cid(bytes: &[u8]) -> (r: Option<Cid>)
    ensures
        r matches Some(k) ==> k.wf() && cid_from_bytes(bytes@) == Some(k@),
        r is None ==> cid_from_bytes(bytes@) is None,
{
    match ::cid::Cid::try_from(bytes) {
        Ok(c) => {
            let (mh_code, digest, size) = c.hash().into_inner();
            Some(Cid { codec: c.codec(), mh_code, size, digest })
        },
        Err(_) => None,
    }
}

/// Calls `cid::Cid::to_bytes` on the version-1 identifier with the parts of
/// `k`. The claim: the bytes are a function of the three parts, named
/// [`cid_to_bytes`], and `cid::Cid::try_from` reads the same identifier back
/// from them, as the crate's usage example shows.
#[verifier::external_body]
pub(crate) fn cid_bytes(k: &Cid) -> (r: Vec<u8>)
    requires
        k.wf(),
    ensures
        r@ == cid_to_bytes(k@),
        cid_from_bytes(r@) == Some(k@),
{
    let mh = ::cid::multihash::Multihash::<64>::wrap(k.mh_code, &k.digest[..k.size as usize]).unwrap();
    ::cid::Cid::new_v1(k.codec, mh).to_bytes()
}

} // verus!
