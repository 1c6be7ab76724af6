//! The backend that the cells persist through.

use std::marker::PhantomData;
use vstd::prelude::*;
use vstd::std_specs::convert::FromSpecImpl;

use crate::address::Cid;

verus! {

/// How an identifier was derived: its content-type tag and its hash-function
/// tag, without the digest. Handed to the backend as a hint when a modified
/// value is stored again.
#[derive(Clone, Copy, Debug, PartialEq, Eq, Structural)]
pub struct CidShape {
    pub codec: u64,
    pub mh_code: u64,
}

impl CidShape {
    /// The shape of `k`: `k` without its digest.
    pub open spec fn of(k: Cid) -> CidShape {
        CidShape { codec: k@.codec, mh_code: k@.mh_code }
    }
}

impl From<&Cid> for CidShape {
    fn from(k: &Cid) -> (r: CidShape)
        ensures
            r == CidShape::of(*k),
    {
        CidShape { codec: k.codec(), mh_code: k.mh_code() }
    }
}

impl FromSpecImpl<&Cid> for CidShape {
    open spec fn obeys_from_spec() -> bool {
        true
    }

    open spec fn from_spec(k: &Cid) -> CidShape {
        CidShape::of(*k)
    }
}

/// A backend, chosen at the type level: it encodes and decodes values of `T`
/// and persists bytes under content identifiers.
///
/// The trait asks nothing of an implementation. What a call returns may depend
/// on what the backend holds, so the cells speak of a backend only through the
/// outcomes that its operations can have: [`load_outcome`], [`store_outcome`],
/// [`encode_outcome`] and [`store_bytes_outcome`].
pub trait StaticStore<T>: Sized {
    type Error;

    /// Persists bytes and returns their identifier. The shape is a hint.
    fn store_bytes(value: &[u8], shape: Option<&CidShape>) -> Result<Cid, Self::Error>;

    /// Encodes a value.
    fn encode(value: &T) -> Result<Vec<u8>, Self::Error>;

    /// Fetches the bytes persisted under an identifier.
    fn load_bytes(k: &Cid) -> Result<Vec<u8>, Self::Error>;

    /// Decodes a value.
    fn decode(bytes: &[u8]) -> Result<T, Self::Error>;

    /// Loads a value: fetches its bytes, then decodes them.
    fn load(key: &Cid) -> (r: Result<T, Self::Error>)
        default_ensures
            (r is Err && call_ensures(Self::load_bytes, (key,), Err(r->Err_0))) || exists|
                bytes: Vec<u8>,
                s: &[u8],
            |
                #![trigger call_ensures(Self::load_bytes, (key,), Ok(bytes)), call_ensures(Self::decode, (s,), r)]
                s@ == bytes@ && call_ensures(Self::load_bytes, (key,), Ok(bytes)) && call_ensures(
                    Self::decode,
                    (s,),
                    r,
                ),
    {
        match Self::load_bytes(key) {
            Ok(bytes) => Self::decode(bytes.as_slice()),
            Err(e) => Err(e),
        }
    }

    /// Stores a value: encodes it, then persists the bytes. The shape is a hint.
    fn store(value: &T, shape: Option<&CidShape>) -> (r: Result<Cid, Self::Error>)
        default_ensures
            (r is Err && call_ensures(Self::encode, (value,), Err(r->Err_0))) || exists|
                bytes: Vec<u8>,
                s: &[u8],
            |
                #![trigger call_ensures(Self::encode, (value,), Ok(bytes)), call_ensures(Self::store_bytes, (s, shape), r)]
                s@ == bytes@ && call_ensures(Self::encode, (value,), Ok(bytes)) && call_ensures(
                    Self::store_bytes,
                    (s, shape),
                    r,
                ),
    {
        match Self::encode(value) {
            Ok(bytes) => Self::store_bytes(bytes.as_slice(), shape),
            Err(e) => Err(e),
        }
    }
}

/// The hint as the backend receives it.
pub open spec fn hint_ref<'a>(shape: Option<CidShape>) -> Option<&'a CidShape> {
    match shape {
        Some(s) => Some(&s),
        None => None,
    }
}

/// `r` is a possible outcome of `S::load` on `k`.
pub open spec fn load_outcome<T, S: StaticStore<T>>(k: Cid, r: Result<T, S::Error>) -> bool {
    call_ensures(S::load, (&k,), r)
}

/// `r` is a possible outcome of `S::store` on `value` with the hint `shape`.
pub open spec fn store_outcome<T, S: StaticStore<T>>(
    value: T,
    shape: Option<CidShape>,
    r: Result<Cid, S::Error>,
) -> bool {
    call_ensures(S::store, (&value, hint_ref(shape)), r)
}

/// `r` is a possible outcome of `S::encode` on `value`.
pub open spec fn encode_outcome<T, S: StaticStore<T>>(value: T, r: Result<Vec<u8>, S::Error>) -> bool {
    call_ensures(S::encode, (&value,), r)
}

/// `r` is a possible outcome of `S::store_bytes` on `bytes` with the hint
/// `shape`.
pub open spec fn store_bytes_outcome<T, S: StaticStore<T>>(
    bytes: Seq<u8>,
    shape: Option<CidShape>,
    r: Result<Cid, S::Error>,
) -> bool {
    exists|s: &[u8]| s@ == bytes && #[trigger] call_ensures(S::store_bytes, (s, hint_ref(shape)), r)
}

/// The backend may hold `v` under `k`: it may load `v` from `k`, it may
/// answer `k` when `v` is stored, or it may answer `k` when an encoding of `v`
/// is persisted.
pub open spec fn persisted<T, S: StaticStore<T>>(k: Cid, v: T) -> bool {
    ||| load_outcome::<T, S>(k, Ok(v))
    ||| exists|shape: Option<CidShape>| #[trigger] store_outcome::<T, S>(v, shape, Ok(k))
    ||| exists|bytes: Vec<u8>, shape: Option<CidShape>|
        encode_outcome::<T, S>(v, Ok(bytes)) && #[trigger] store_bytes_outcome::<T, S>(
            bytes@,
            shape,
            Ok(k),
        )
}

/// The backend is content-addressed: whatever it loads from an identifier is
/// the value that it holds under it.
pub open spec fn faithful<T, S: StaticStore<T>>() -> bool {
    forall|k: Cid, v: T, w: T|
        #![trigger persisted::<T, S>(k, v), load_outcome::<T, S>(k, Ok(w))]
        persisted::<T, S>(k, v) && load_outcome::<T, S>(k, Ok(w)) ==> w == v
}

/// The backend follows the hint: an identifier that it answers to a store
/// with a hint has the hinted shape.
pub open spec fn honors_hints<T, S: StaticStore<T>>() -> bool {
    forall|v: T, shape: CidShape, k: Cid|
        #![trigger store_outcome::<T, S>(v, Some(shape), Ok(k))]
        store_outcome::<T, S>(v, Some(shape), Ok(k)) ==> CidShape::of(k) == shape
}

/// A backend for callers that treat a backend failure as fatal.
pub trait MagicStore<T>: StaticStore<T> {
    /// Takes the value out of a successful outcome.
    fn unwrap<U>(r: Result<U, Self::Error>) -> (v: U)
        requires
            r is Ok,
        ensures
            r == Ok::<U, Self::Error>(v),
    {
        match r {
            Ok(v) => v,
            Err(_) => unreached(),
        }
    }
}

/// Turns any backend into a [`MagicStore`]. Each operation is the backend's
/// own.
pub struct Magic<S>(PhantomData<S>);

impl<T, S: StaticStore<T>> StaticStore<T> for Magic<S> {
    type Error = S::Error;

    fn store_bytes(value: &[u8], shape: Option<&CidShape>) -> (r: Result<Cid, Self::Error>)
        ensures
            call_ensures(S::store_bytes, (value, shape), r),
    {
        S::store_bytes(value, shape)
    }

    fn encode(value: &T) -> (r: Result<Vec<u8>, Self::Error>)
        ensures
            call_ensures(S::encode, (value,), r),
    {
        S::encode(value)
    }

    fn load_bytes(k: &Cid) -> (r: Result<Vec<u8>, Self::Error>)
        ensures
            call_ensures(S::load_bytes, (k,), r),
    {
        S::load_bytes(k)
    }

    fn decode(bytes: &[u8]) -> (r: Result<T, Self::Error>)
        ensures
            call_ensures(S::decode, (bytes,), r),
    {
        S::decode(bytes)
    }

    fn load(key: &Cid) -> (r: Result<T, Self::Error>)
        ensures
            call_ensures(S::load, (key,), r),
    {
        S::load(key)
    }

    fn store(value: &T, shape: Option<&CidShape>) -> (r: Result<Cid, Self::Error>)
        ensures
            call_ensures(S::store, (value, shape), r),
    {
        S::store(value, shape)
    }
}

impl<T, S: StaticStore<T>> MagicStore<T> for Magic<S> {
}

} // verus!
