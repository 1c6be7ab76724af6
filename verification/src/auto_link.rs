//! The cell that embeds small values and links to large ones.

use std::marker::PhantomData;
use vstd::prelude::*;
use vstd::std_specs::convert::FromSpecImpl;

use crate::address::Cid;
use crate::cache::{lent, slot_mut, slot_ref};
use crate::maybe_link::{lent_form, FormatError, MaybeLink, Node, Resolution};
use crate::store::{
    encode_outcome, faithful, load_outcome, persisted, store_bytes_outcome, StaticStore,
};

verus! {

/// Where an [`AutoLink`] stands between its value and the backend.
#[derive(Clone, Copy, Debug, PartialEq, Eq)]
pub enum InlineState {
    /// The value is present and not yet resolved to inline or link.
    Modified,
    /// The value is present and was small enough to embed at the last save.
    Inlined,
    /// The value is persisted out of line under the identifier.
    Link(Cid),
}

impl InlineState {
    /// The identifier of a state that is a link.
    pub fn unwrap_ref(self) -> (k: Cid)
        requires
            self is Link,
        ensures
            self == InlineState::Link(k),
    {
        match self {
            InlineState::Link(c) => c,
            _ => unreached(),
        }
    }
}

/// A value that is embedded in its parent's encoding if its own encoding has
/// at most `S` bytes, and persisted out of line otherwise.
///
/// The limit is applied when a modified cell is saved. It is not applied on
/// decode, and a decision to embed stands until the cell is rebuilt: editing
/// an embedded value does not bring the limit back into play.
pub struct AutoLink<T, Store: StaticStore<T>, const S: usize> {
    value: Option<T>,
    state: InlineState,
    _marker: PhantomData<Store>,
}

/// The limit that a cell takes where nothing calls for another.
pub const DEFAULT_INLINE_LIMIT: usize = 256;

impl<T, Store: StaticStore<T>, const S: usize> AutoLink<T, Store, S> {
    /// The cached value, if any.
    pub closed spec fn cached(self) -> Option<T> {
        self.value
    }

    /// The state.
    pub closed spec fn state(self) -> InlineState {
        self.state
    }

    /// A cell that is not a link holds its value, and a value cached beside a
    /// link is one that the backend may hold under the link's identifier.
    #[verifier::type_invariant]
    pub open spec fn wf(self) -> bool {
        match self.state() {
            InlineState::Link(k) => self.cached() matches Some(v) ==> persisted::<T, Store>(k, v),
            _ => self.cached() is Some,
        }
    }

    /// What `read` does: it fills an empty cache from the backend and leaves
    /// everything else as it was.
    pub open spec fn read_step(pre: Self, post: Self, r: Result<T, Store::Error>) -> bool {
        &&& post.state() == pre.state()
        &&& match pre.cached() {
            Some(v) => r == Ok::<T, Store::Error>(v) && post.cached() == pre.cached(),
            None => pre.state() matches InlineState::Link(k) && load_outcome::<T, Store>(k, r)
                && post.cached() == match r {
                Ok(v) => Some(v),
                Err(_) => None,
            },
        }
    }

    /// What `edit` does, where `first` is the value handed out and `last` the
    /// one that the caller leaves behind: a link becomes modified, after its
    /// value was loaded if it was not cached; other states stay.
    pub open spec fn edit_step(pre: Self, post: Self, r: Result<(T, T), Store::Error>) -> bool {
        match r {
            Ok((first, last)) => {
                &&& match pre.cached() {
                    Some(v) => first == v,
                    None => pre.state() matches InlineState::Link(k) && load_outcome::<T, Store>(
                        k,
                        Ok(first),
                    ),
                }
                &&& post.cached() == Some(last)
                &&& post.state() == match pre.state() {
                    InlineState::Link(_) => InlineState::Modified,
                    s => s,
                }
            },
            Err(e) => {
                &&& pre.cached() is None
                &&& pre.state() matches InlineState::Link(k) && load_outcome::<T, Store>(k, Err(e))
                &&& post == pre
            },
        }
    }

    /// Whether an encoding of `len` bytes is embedded.
    pub open spec fn spec_inlines(len: usize) -> bool {
        len <= S
    }

    /// Whether an encoding of `len` bytes is embedded: whether it has at most
    /// `S` bytes.
    #[verifier::when_used_as_spec(spec_inlines)]
    pub fn inlines(len: usize) -> (r: bool)
        ensures
            r == Self::spec_inlines(len),
    {
        len <= S
    }

    /// What a save makes of a modified value `v`: the value is encoded; if the
    /// encoding has at most `S` bytes the cell becomes embedded and answers
    /// the value, else the encoding is persisted without a hint, and the cell
    /// becomes a link to the identifier that the backend answers. A failure
    /// of the backend is handed on and leaves the cell modified.
    pub open spec fn resolves(v: T, post: InlineState, r: Result<MaybeLink<T>, Store::Error>) -> bool {
        exists|encoded: Result<Vec<u8>, Store::Error>| #[trigger]
            encode_outcome::<T, Store>(v, encoded) && match encoded {
                Err(e) => r == Err::<MaybeLink<T>, Store::Error>(e) && post == InlineState::Modified,
                Ok(bytes) => if Self::spec_inlines(bytes.len()) {
                    r == Ok::<MaybeLink<T>, Store::Error>(MaybeLink::Value(v)) && post
                        == InlineState::Inlined
                } else {
                    match r {
                        Ok(m) => m matches MaybeLink::Link(k) && store_bytes_outcome::<T, Store>(
                            bytes@,
                            None,
                            Ok(k),
                        ) && post == InlineState::Link(k),
                        Err(e) => store_bytes_outcome::<T, Store>(bytes@, None, Err(e)) && post
                            == InlineState::Modified,
                    }
                },
            }
    }

    /// What `save` does. A link answers its identifier and an embedded value
    /// answers itself, both without the backend and without a change to the
    /// cell. A modified value is resolved to inline or link; the cache is
    /// kept.
    pub open spec fn save_step(pre: Self, post: Self, r: Result<MaybeLink<T>, Store::Error>) -> bool {
        match pre.state() {
            InlineState::Link(k) => r == Ok::<MaybeLink<T>, Store::Error>(MaybeLink::Link(k)) && post
                == pre,
            InlineState::Inlined => pre.cached() matches Some(v) && r == Ok::<
                MaybeLink<T>,
                Store::Error,
            >(MaybeLink::Value(v)) && post == pre,
            InlineState::Modified => pre.cached() matches Some(v) && post.cached() == pre.cached()
                && Self::resolves(v, post.state(), r),
        }
    }

    /// The cell is the one that stands for `form`: modified around a value,
    /// or an empty link to an identifier.
    pub open spec fn stands_for(self, form: MaybeLink<T>) -> bool {
        match form {
            MaybeLink::Value(v) => self.state() == InlineState::Modified && self.cached() == Some(v),
            MaybeLink::Link(k) => self.state() == InlineState::Link(k) && self.cached() is None,
        }
    }

    /// The cell around a value that is not persisted yet.
    pub closed spec fn fresh(v: T) -> Self {
        AutoLink { value: Some(v), state: InlineState::Modified, _marker: PhantomData }
    }
}

impl<T, Store: StaticStore<T>, const S: usize> AutoLink<T, Store, S> {
    /// A cell for a value persisted under `k`. Nothing is loaded yet.
    pub fn from_cid(k: Cid) -> (r: Self)
        ensures
            r.wf(),
            r.state() == InlineState::Link(k),
            r.cached() is None,
    {
        Self { state: InlineState::Link(k), value: None, _marker: PhantomData }
    }

    /// A cell for a value that is not persisted yet.
    pub fn from_value(v: T) -> (r: Self)
        ensures
            r.wf(),
            r == Self::fresh(v),
            r.state() == InlineState::Modified,
            r.cached() == Some(v),
    {
        Self { state: InlineState::Modified, value: Some(v), _marker: PhantomData }
    }

    /// The cached value, if any, through shared access: nothing is loaded.
    pub fn peek(&self) -> (r: Option<&T>)
        ensures
            r is Some <==> self.cached() is Some,
            r matches Some(v) ==> self.cached() == Some(*v),
    {
        self.value.as_ref()
    }

    /// Reads the value, loading it from the backend if it is not cached.
    pub fn read(&mut self) -> (r: Result<&T, Store::Error>)
        ensures
            final(self).wf(),
            Self::read_step(*old(self), *final(self), lent(r)),
    {
        proof {
            use_type_invariant(&*self);
        }
        if self.value.is_none() {
            let k = self.state.unwrap_ref();
            match Store::load(&k) {
                Ok(v) => {
                    self.value = Some(v);
                },
                Err(e) => {
                    return Err(e);
                },
            }
        }
        Ok(slot_ref(&self.value))
    }

    /// Hands out the value for writing, loading it from the backend if it is
    /// not cached. A link becomes modified.
    pub fn edit(&mut self) -> (r: Result<&mut T, Store::Error>)
        ensures
            final(self).wf(),
            Self::edit_step(
                *old(self),
                *final(self),
                match r {
                    Ok(v) => Ok((*v, *final(v))),
                    Err(e) => Err(e),
                },
            ),
    {
        proof {
            use_type_invariant(&*self);
        }
        if let InlineState::Link(k) = self.state {
            if self.value.is_none() {
                match Store::load(&k) {
                    Ok(v) => {
                        self.value = Some(v);
                    },
                    Err(e) => {
                        return Err(e);
                    },
                }
            }
            self.state = InlineState::Modified;
        }
        Ok(slot_mut(&mut self.value))
    }

    /// Resolves a modified value to inline or link, and answers the form in
    /// which the cell goes into its parent's encoding.
    pub fn save(&mut self) -> (r: Result<MaybeLink<&T>, Store::Error>)
        ensures
            final(self).wf(),
            Self::save_step(*old(self), *final(self), lent_form(r)),
    {
        proof {
            use_type_invariant(&*self);
        }
        match self.state {
            InlineState::Modified => (),
            InlineState::Link(k) => {
                return Ok(MaybeLink::Link(k));
            },
            InlineState::Inlined => {
                return Ok(MaybeLink::Value(slot_ref(&self.value)));
            },
        }
        let attempt = Store::encode(slot_ref(&self.value));
        let encoded = match attempt {
            Ok(encoded) => encoded,
            Err(e) => {
                assert(encode_outcome::<T, Store>(self.value->0, Err(e)));
                return Err(e);
            },
        };
        assert(encode_outcome::<T, Store>(self.value->0, Ok(encoded)));
        if Self::inlines(encoded.len()) {
            self.state = InlineState::Inlined;
            Ok(MaybeLink::Value(slot_ref(&self.value)))
        } else {
            let s = encoded.as_slice();
            match Store::store_bytes(s, None) {
                Ok(k) => {
                    assert(store_bytes_outcome::<T, Store>(encoded@, None, Ok(k)));
                    self.state = InlineState::Link(k);
                    Ok(MaybeLink::Link(k))
                },
                Err(e) => {
                    Err(e)
                },
            }
        }
    }
    /// The cell for a decoded form: around the value, or for the identifier.
    pub fn from_form(form: MaybeLink<T>) -> (r: Self)
        ensures
            r.wf(),
            r.stands_for(form),
    {
        match form {
            MaybeLink::Value(value) => Self::from_value(value),
            MaybeLink::Link(k) => Self::from_cid(k),
        }
    }

    /// Decodes a cell from a node that holds either the value itself or the
    /// wrapper around its identifier. The limit `S` plays no part.
    pub fn decode<F: FnOnce(&Node) -> Option<T>>(node: &Node, decode_value: F) -> (r: Result<
        Self,
        FormatError,
    >)
        requires
            node.resolution() matches Resolution::Value(n) ==> call_requires(decode_value, (&n,)),
        ensures
            match r {
                Ok(cell) => cell.wf() && exists|form: MaybeLink<T>| #[trigger]
                    cell.stands_for(form) && MaybeLink::decodes(*node, decode_value, Ok(form)),
                Err(e) => MaybeLink::<T>::decodes(*node, decode_value, Err(e)),
            },
    {
        match MaybeLink::decode(node, decode_value) {
            Ok(form) => {
                let cell = Self::from_form(form);
                Ok(cell)
            },
            Err(e) => Err(e),
        }
    }

    /// Saves the cell and encodes the form in which it goes into its parent:
    /// the value as `encode_value` encodes it, or the wrapper around the
    /// identifier.
    pub fn encode<F: FnOnce(&T) -> Node>(&mut self, encode_value: F) -> (r: Result<
        Node,
        Store::Error,
    >)
        requires
            old(self).cached() matches Some(v) ==> call_requires(encode_value, (&v,)),
        ensures
            final(self).wf(),
            match r {
                Ok(node) => exists|form: MaybeLink<T>| #[trigger]
                    Self::save_step(*old(self), *final(self), Ok(form)) && form.encodes(
                        encode_value,
                        node,
                    ),
                Err(e) => Self::save_step(*old(self), *final(self), Err(e)),
            },
    {
        match self.save() {
            Ok(MaybeLink::Value(v)) => {
                let node = encode_value(v);
                Ok(node)
            },
            Ok(MaybeLink::Link(k)) => {
                let node = Node::link(&k);
                Ok(node)
            },
            Err(e) => Err(e),
        }
    }
}

impl<T, Store: StaticStore<T>, const S: usize> AutoLink<T, Store, S> {
    /// The form that a save answers stands for the value that the cell held:
    /// an embedded form is that value, and what a faithful backend loads from
    /// a link is that value.
    pub proof fn lemma_save_then_load(pre: Self, post: Self, v: T, form: MaybeLink<T>)
        requires
            pre.wf(),
            pre.cached() == Some(v),
            Self::save_step(pre, post, Ok(form)),
        ensures
            post.wf(),
            post.cached() == Some(v),
            match form {
                MaybeLink::Value(x) => x == v,
                MaybeLink::Link(k) => persisted::<T, Store>(k, v) && (faithful::<T, Store>()
                    ==> forall|w: T| #[trigger] load_outcome::<T, Store>(k, Ok(w)) ==> w == v),
            },
    {
    }

    /// Where a save succeeded and nothing was handed out for writing since,
    /// the next save answers the same form without the backend and changes
    /// nothing.
    pub proof fn lemma_save_twice(
        pre: Self,
        mid: Self,
        post: Self,
        form: MaybeLink<T>,
        second: Result<MaybeLink<T>, Store::Error>,
    )
        requires
            Self::save_step(pre, mid, Ok(form)),
            Self::save_step(mid, post, second),
        ensures
            mid.state() != InlineState::Modified,
            second == Ok::<MaybeLink<T>, Store::Error>(form),
            post == mid,
    {
    }

    /// Editing a link makes the cell modified, whether or not the value was
    /// changed, so the next save resolves the value left behind anew, from a
    /// fresh encoding, and does not merely answer the link that the cell held
    /// before. Editing an embedded value does not: the cell stays embedded,
    /// and the next save answers the value left behind as it is.
    pub proof fn lemma_edit_then_save(
        pre: Self,
        mid: Self,
        post: Self,
        first: T,
        last: T,
        r: Result<MaybeLink<T>, Store::Error>,
    )
        requires
            Self::edit_step(pre, mid, Ok((first, last))),
            Self::save_step(mid, post, r),
        ensures
            post.cached() == Some(last),
            match pre.state() {
                InlineState::Inlined => mid.state() is Inlined && r == Ok::<
                    MaybeLink<T>,
                    Store::Error,
                >(MaybeLink::Value(last)),
                _ => mid.state() is Modified && Self::resolves(last, post.state(), r),
            },
    {
    }

    /// Where every encoding of the value has `len` bytes, a save of the
    /// modified cell embeds the value if `len` is at most `S`, so with exactly
    /// `S` bytes, and never embeds it if `len` is larger, so with one byte
    /// more.
    pub proof fn lemma_limit(
        pre: Self,
        post: Self,
        v: T,
        len: nat,
        r: Result<MaybeLink<T>, Store::Error>,
    )
        requires
            pre.state() is Modified,
            pre.cached() == Some(v),
            Self::save_step(pre, post, r),
            forall|encoded: Result<Vec<u8>, Store::Error>| #[trigger]
                encode_outcome::<T, Store>(v, encoded) ==> (encoded matches Ok(bytes) && bytes.len()
                    == len),
        ensures
            len <= S ==> r == Ok::<MaybeLink<T>, Store::Error>(MaybeLink::Value(v)) && post.state()
                is Inlined,
            len > S ==> !(r matches Ok(MaybeLink::Value(_))) && !(post.state() is Inlined) && (
            r matches Ok(MaybeLink::Link(k)) ==> post.state() == InlineState::Link(k)),
    {
    }
}

impl<T, Store: StaticStore<T>, const S: usize> From<T> for AutoLink<T, Store, S> {
    /// A cell for a value that is not persisted yet.
    fn from(v: T) -> (r: Self)
        ensures
            r.wf(),
            r.state() == InlineState::Modified,
            r.cached() == Some(v),
    {
        Self::from_value(v)
    }
}

impl<T, Store: StaticStore<T>, const S: usize> FromSpecImpl<T> for AutoLink<T, Store, S> {
    open spec fn obeys_from_spec() -> bool {
        true
    }

    open spec fn from_spec(v: T) -> Self {
        Self::fresh(v)
    }
}

} // verus!
