//! The cell that always persists its value out of line.

use std::marker::PhantomData;
use vstd::prelude::*;
use vstd::std_specs::convert::FromSpecImpl;

use crate::address::{cid_to_bytes, Cid, CidModel};
use crate::cache::{lent, slot_mut, slot_ref};
use crate::maybe_link::{FormatError, Node};
use crate::store::{
    faithful, honors_hints, load_outcome, persisted, store_outcome, CidShape, StaticStore,
};

verus! {

/// Where a [`Link`] stands between its value and the backend.
#[derive(Clone, Copy, Debug, PartialEq, Eq)]
pub enum LinkState {
    /// The value is persisted under the identifier.
    Unmodified(Cid),
    /// The value is not persisted in its present form. The shape, if any, is
    /// the hint for the next store.
    Modified(Option<CidShape>),
}

impl LinkState {
    /// The identifier of a state that is unmodified.
    pub fn unwrap_unmodified(self) -> (k: Cid)
        requires
            self is Unmodified,
        ensures
            self == LinkState::Unmodified(k),
    {
        match self {
            LinkState::Unmodified(k) => k,
            _ => unreached(),
        }
    }
}

/// A value behind a content identifier: loaded through the backend `Store`
/// on first access, cached, and written back by [`Link::save`] if it was
/// handed out for writing.
pub struct Link<T, Store: StaticStore<T>> {
    value: Option<T>,
    state: LinkState,
    _marker: PhantomData<Store>,
}

impl<T, Store: StaticStore<T>> Link<T, Store> {
    /// The cached value, if any.
    pub closed spec fn cached(self) -> Option<T> {
        self.value
    }

    /// The state.
    pub closed spec fn state(self) -> LinkState {
        self.state
    }

    /// A modified cell holds its value, and a value cached in an unmodified
    /// cell is one that the backend may hold under the cell's identifier.
    #[verifier::type_invariant]
    pub open spec fn wf(self) -> bool {
        match self.state() {
            LinkState::Unmodified(k) => self.cached() matches Some(v) ==> persisted::<T, Store>(k, v),
            LinkState::Modified(_) => self.cached() is Some,
        }
    }

    /// What `read` does: it fills an empty cache from the backend and leaves
    /// everything else as it was.
    pub open spec fn read_step(pre: Self, post: Self, r: Result<T, Store::Error>) -> bool {
        &&& post.state() == pre.state()
        &&& match pre.cached() {
            Some(v) => r == Ok::<T, Store::Error>(v) && post.cached() == pre.cached(),
            None => pre.state() matches LinkState::Unmodified(k) && load_outcome::<T, Store>(k, r)
                && post.cached() == match r {
                Ok(v) => Some(v),
                Err(_) => None,
            },
        }
    }

    /// What `edit` does, where `first` is the value handed out and `last` the
    /// one that the caller leaves behind: an unmodified cell becomes modified,
    /// with the shape of its identifier as the hint, after its value was
    /// loaded if it was not cached; a modified cell stays as it is.
    pub open spec fn edit_step(pre: Self, post: Self, r: Result<(T, T), Store::Error>) -> bool {
        match r {
            Ok((first, last)) => {
                &&& match pre.cached() {
                    Some(v) => first == v,
                    None => pre.state() matches LinkState::Unmodified(k) && load_outcome::<T, Store>(
                        k,
                        Ok(first),
                    ),
                }
                &&& post.cached() == Some(last)
                &&& post.state() == match pre.state() {
                    LinkState::Unmodified(k) => LinkState::Modified(Some(CidShape::of(k))),
                    s => s,
                }
            },
            Err(e) => {
                &&& pre.cached() is None
                &&& pre.state() matches LinkState::Unmodified(k) && load_outcome::<T, Store>(k, Err(e))
                &&& post == pre
            },
        }
    }

    /// What `save` does. An unmodified cell answers its identifier without
    /// the backend. A modified cell hands its value and its hint to the
    /// backend's `store`; the identifier that comes back makes the cell
    /// unmodified, and a failure leaves it as it was. The cache is kept.
    pub open spec fn save_step(pre: Self, post: Self, r: Result<Cid, Store::Error>) -> bool {
        match pre.state() {
            LinkState::Unmodified(k) => r == Ok::<Cid, Store::Error>(k) && post == pre,
            LinkState::Modified(hint) => {
                &&& pre.cached() matches Some(v) && store_outcome::<T, Store>(v, hint, r)
                &&& post.cached() == pre.cached()
                &&& post.state() == match r {
                    Ok(k) => LinkState::Unmodified(k),
                    Err(_) => pre.state(),
                }
            },
        }
    }

    /// What `free` does: what `save` does, and after a success the cache is
    /// empty.
    pub open spec fn free_step(pre: Self, post: Self, r: Result<Cid, Store::Error>) -> bool {
        exists|mid: Self| #[trigger]
            Self::save_step(pre, mid, r) && match r {
                Ok(_) => post.state() == mid.state() && post.cached() is None,
                Err(_) => post == mid,
            }
    }

    /// The cell is empty and unmodified at the identifier that `m` describes.
    pub open spec fn stands_at(self, m: CidModel) -> bool {
        &&& self.cached() is None
        &&& self.state() matches LinkState::Unmodified(k)
        &&& k.wf()
        &&& k@ == m
    }

    /// The cell around a value that is not persisted yet.
    pub closed spec fn fresh(v: T, shape: Option<CidShape>) -> Self {
        Link { value: Some(v), state: LinkState::Modified(shape), _marker: PhantomData }
    }
}

impl<T, Store: StaticStore<T>> Link<T, Store> {
    /// A cell for a value persisted under `k`. Nothing is loaded yet.
    pub fn new(k: Cid) -> (r: Self)
        ensures
            r.wf(),
            r.state() == LinkState::Unmodified(k),
            r.cached() is None,
    {
        Self { state: LinkState::Unmodified(k), value: None, _marker: PhantomData }
    }

    /// A cell for a value that is not persisted yet, with an optional hint
    /// for the shape of its identifier.
    pub fn from_value(v: T, shape: Option<CidShape>) -> (r: Self)
        ensures
            r.wf(),
            r == Self::fresh(v, shape),
            r.state() == LinkState::Modified(shape),
            r.cached() == Some(v),
    {
        Self { state: LinkState::Modified(shape), value: Some(v), _marker: PhantomData }
    }

    /// The cached value, if any, through shared access: nothing is loaded.
    pub fn peek(&self) -> (r: Option<&T>)
        ensures
            r is Some <==> self.cached() is Some,
            r matches Some(v) ==> self.cached() == Some(*v),
    {
        self.value.as_ref()
    }

    /// Reads the value, loading it from the backend if it is not cached.
    pub fn read(&mut self) -> (r: Result<&T, Store::Error>)
        ensures
            final(self).wf(),
            Self::read_step(*old(self), *final(self), lent(r)),
    {
        proof {
            use_type_invariant(&*self);
        }
        if self.value.is_none() {
            let k = self.state.unwrap_unmodified();
            match Store::load(&k) {
                Ok(v) => {
                    self.value = Some(v);
                },
                Err(e) => {
                    return Err(e);
                },
            }
        }
        Ok(slot_ref(&self.value))
    }

    /// Hands out the value for writing, loading it from the backend if it is
    /// not cached, and marks the cell as modified: the next save stores it.
    pub fn edit(&mut self) -> (r: Result<&mut T, Store::Error>)
        ensures
            final(self).wf(),
            Self::edit_step(
                *old(self),
                *final(self),
                match r {
                    Ok(v) => Ok((*v, *final(v))),
                    Err(e) => Err(e),
                },
            ),
    {
        proof {
            use_type_invariant(&*self);
        }
        if let LinkState::Unmodified(k) = self.state {
            if self.value.is_none() {
                match Store::load(&k) {
                    Ok(v) => {
                        self.value = Some(v);
                    },
                    Err(e) => {
                        return Err(e);
                    },
                }
            }
            self.state = LinkState::Modified(Some(CidShape::from(&k)));
        }
        Ok(slot_mut(&mut self.value))
    }

    /// Writes the value back if the cell is modified, and answers the
    /// identifier under which the value is persisted.
    pub fn save(&mut self) -> (r: Result<Cid, Store::Error>)
        ensures
            final(self).wf(),
            Self::save_step(*old(self), *final(self), r),
    {
        proof {
            use_type_invariant(&*self);
        }
        let shape = match self.state {
            LinkState::Unmodified(k) => {
                return Ok(k);
            },
            LinkState::Modified(shape) => shape,
        };
        let r = Store::store(slot_ref(&self.value), shape.as_ref());
        assert(store_outcome::<T, Store>(self.value->0, shape, r));
        match r {
            Ok(k) => {
                self.state = LinkState::Unmodified(k);
                Ok(k)
            },
            Err(e) => Err(e),
        }
    }

    /// Writes the value back if the cell is modified, answers the identifier,
    /// and drops the cached value.
    pub fn free(&mut self) -> (r: Result<Cid, Store::Error>)
        ensures
            final(self).wf(),
            Self::free_step(*old(self), *final(self), r),
    {
        match self.save() {
            Ok(k) => {
                self.value = None;
                Ok(k)
            },
            Err(e) => Err(e),
        }
    }

    /// Saves the cell and encodes it. A cell is always encoded as the wrapper
    /// around the bytes of its identifier, never as its value.
    pub fn encode(&mut self) -> (r: Result<Node, Store::Error>)
        ensures
            final(self).wf(),
            match r {
                Ok(node) => exists|k: Cid| #[trigger]
                    Self::save_step(*old(self), *final(self), Ok(k)) && node.wraps(
                        cid_to_bytes(k@),
                    ) && node.address() == Some(k@),
                Err(e) => Self::save_step(*old(self), *final(self), Err(e)),
            },
    {
        match self.save() {
            Ok(k) => Ok(Node::link(&k)),
            Err(e) => Err(e),
        }
    }

    /// Decodes a cell from the wrapper around the bytes of an identifier.
    /// Nothing is loaded yet.
    pub fn decode(node: &Node) -> (r: Result<Self, FormatError>)
        ensures
            match node.address() {
                Some(m) => r matches Ok(cell) && cell.wf() && cell.stands_at(m),
                None => r matches Err(e) && e == FormatError::InvalidAddress,
            },
    {
        match node.as_link() {
            Ok(k) => Ok(Self::new(k)),
            Err(e) => Err(e),
        }
    }

}

impl<T, Store: StaticStore<T>> Link<T, Store> {
    /// A cell can be rebuilt from its encoding alone: the cell decoded from
    /// the node that an encode answered is empty and unmodified at the very
    /// identifier that the save answered.
    pub proof fn lemma_encode_then_decode(k: Cid, node: Node, cell: Self)
        requires
            k.wf(),
            node.address() == Some(k@),
            node.address() matches Some(m) && cell.stands_at(m),
        ensures
            cell.cached() is None,
            cell.state() == LinkState::Unmodified(k),
    {
        Cid::lemma_eq_by_parts(k, cell.state()->Unmodified_0);
    }

    /// What a faithful backend loads from the identifier that a save answered
    /// is the value that the cell held.
    pub proof fn lemma_save_then_load(pre: Self, post: Self, v: T, k: Cid, w: T)
        requires
            pre.wf(),
            faithful::<T, Store>(),
            pre.cached() == Some(v),
            Self::save_step(pre, post, Ok(k)),
            load_outcome::<T, Store>(k, Ok(w)),
        ensures
            w == v,
            post.wf(),
    {
        assert(persisted::<T, Store>(k, v));
    }

    /// Where a save succeeded and nothing was handed out for writing since,
    /// the cell is unmodified, so the next save answers the same identifier
    /// without the backend and changes nothing.
    pub proof fn lemma_save_twice(
        pre: Self,
        mid: Self,
        post: Self,
        k: Cid,
        second: Result<Cid, Store::Error>,
    )
        requires
            Self::save_step(pre, mid, Ok(k)),
            Self::save_step(mid, post, second),
        ensures
            mid.state() == LinkState::Unmodified(k),
            second == Ok::<Cid, Store::Error>(k),
            post == mid,
    {
    }

    /// Once the value was handed out for writing the cell is modified,
    /// whether or not the value was changed, and what the next save answers
    /// is what the backend answers to a store of the value left behind: never
    /// an identifier that the cell merely held before.
    pub proof fn lemma_edit_then_save(
        pre: Self,
        mid: Self,
        post: Self,
        first: T,
        last: T,
        r: Result<Cid, Store::Error>,
    )
        requires
            Self::edit_step(pre, mid, Ok((first, last))),
            Self::save_step(mid, post, r),
        ensures
            mid.state() matches LinkState::Modified(hint) && store_outcome::<T, Store>(last, hint, r),
            post.cached() == Some(last),
    {
    }

    /// After `free` the cell is empty and unmodified at the identifier
    /// answered, which is the one it had if it was unmodified before. A read
    /// leaves it there and answers what the backend loads from that
    /// identifier, and with a faithful backend that is the value held before.
    pub proof fn lemma_free_then_read(
        pre: Self,
        mid: Self,
        post: Self,
        k: Cid,
        r: Result<T, Store::Error>,
    )
        requires
            pre.wf(),
            Self::free_step(pre, mid, Ok(k)),
            Self::read_step(mid, post, r),
        ensures
            pre.state() matches LinkState::Unmodified(k0) ==> k0 == k,
            mid.state() == LinkState::Unmodified(k),
            mid.cached() is None,
            post.state() == LinkState::Unmodified(k),
            load_outcome::<T, Store>(k, r),
            faithful::<T, Store>() ==> (pre.cached() matches Some(v) ==> (r matches Ok(w) ==> w
                == v)),
    {
        let saved = choose|saved: Self| #[trigger]
            Self::save_step(pre, saved, Ok(k)) && mid.state() == saved.state() && mid.cached()
                is None;
        if pre.cached() is Some && r is Ok {
            Self::lemma_persisted_by_save(pre, saved, k);
        }
    }

    /// After a successful save the backend may hold the cell's value under
    /// the identifier answered.
    pub proof fn lemma_persisted_by_save(pre: Self, post: Self, k: Cid)
        requires
            pre.wf(),
            pre.cached() is Some,
            Self::save_step(pre, post, Ok(k)),
        ensures
            persisted::<T, Store>(k, pre.cached()->0),
            post.wf(),
    {
    }

    /// A cell that stood for an identifier and was then edited hands the
    /// shape of that identifier to the backend with the next store, so that a
    /// backend that follows hints answers an identifier of the same shape.
    pub proof fn lemma_hint_reused(
        k: Cid,
        pre: Self,
        mid: Self,
        post: Self,
        first: T,
        last: T,
        r: Result<Cid, Store::Error>,
    )
        requires
            pre.state() == LinkState::Unmodified(k),
            Self::edit_step(pre, mid, Ok((first, last))),
            Self::save_step(mid, post, r),
        ensures
            store_outcome::<T, Store>(last, Some(CidShape::of(k)), r),
            honors_hints::<T, Store>() ==> (r matches Ok(fresh) ==> CidShape::of(fresh)
                == CidShape::of(k)),
    {
    }
}

impl<T, Store: StaticStore<T>> From<T> for Link<T, Store> {
    /// A cell for a value that is not persisted yet, without a hint.
    fn from(c: T) -> (r: Self)
        ensures
            r.wf(),
            r.state() == LinkState::Modified(None),
            r.cached() == Some(c),
    {
        Self::from_value(c, None)
    }
}

impl<T, Store: StaticStore<T>> FromSpecImpl<T> for Link<T, Store> {
    open spec fn obeys_from_spec() -> bool {
        true
    }

    open spec fn from_spec(c: T) -> Self {
        Self::fresh(c, None)
    }
}

} // verus!
