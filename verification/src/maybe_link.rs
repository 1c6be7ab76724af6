//! A value that is either present inline or referenced by its identifier, and
//! the reading of a self-describing node as one or the other.

use vstd::prelude::*;

use crate::address::{cid_bytes, cid_from_bytes, cid_to_bytes, parse_cid, Cid, CidModel};

verus! {

/// Either a value or the identifier of a value persisted elsewhere.
#[derive(Debug, PartialEq, Eq)]
pub enum MaybeLink<T> {
    Value(T),
    Link(Cid),
}

/// Why a node could not be read.
#[derive(Clone, Copy, Debug, PartialEq, Eq)]
pub enum FormatError {
    /// The node is marked as an identifier, and what it wraps is not the
    /// bytes of one.
    InvalidAddress,
    /// The node is an inline value, and no value could be decoded from it.
    InvalidValue,
}

/// The immediate shape of a node.
#[derive(Clone, Copy, Debug, PartialEq, Eq)]
pub enum Shape {
    Bool,
    Integer,
    Float,
    Char,
    Text,
    Bytes,
    Absent,
    Present,
    Wrapper,
    Sequence,
    Mapping,
}

/// What the shape of a node says about it, before anything else is known.
#[derive(Clone, Copy, Debug, PartialEq, Eq)]
pub enum Reading {
    /// The node is an inline value.
    Inline,
    /// The node only says that a value is present: look at what it wraps.
    Nested,
    /// The node wraps the bytes of an identifier.
    Address,
}

impl Shape {
    /// The wrapper is the one shape read as an identifier, a presence marker
    /// defers to what it wraps, and every other shape is an inline value.
    pub open spec fn spec_reading(self) -> Reading {
        match self {
            Shape::Wrapper => Reading::Address,
            Shape::Present => Reading::Nested,
            _ => Reading::Inline,
        }
    }

    /// What a node of this shape is read as.
    #[verifier::when_used_as_spec(spec_reading)]
    pub fn reading(self) -> (r: Reading)
        ensures
            r == self.spec_reading(),
    {
        match self {
            Shape::Wrapper => Reading::Address,
            Shape::Present => Reading::Nested,
            _ => Reading::Inline,
        }
    }
}

/// A node of a self-describing encoding.
#[derive(Debug, PartialEq, Eq)]
pub enum Node {
    Bool(bool),
    Signed(i128),
    Unsigned(u128),
    /// A floating-point number, as the bits of its double-precision form.
    Float(u64),
    Char(char),
    Text(String),
    Bytes(Vec<u8>),
    /// No value.
    Absent,
    /// The marker that a value is present, around that value.
    Present(Box<Node>),
    /// The single-field wrapper that marks bytes as those of an identifier.
    Wrapper(Box<Node>),
    Sequence(Vec<Node>),
    Mapping(Vec<(Node, Node)>),
}

/// A node read as a value or as a link, before the value is decoded.
pub enum Resolution {
    /// An inline value, to be decoded from the node.
    Value(Node),
    /// A link to the identifier.
    Link(CidModel),
    /// A wrapper around something that is not the bytes of an identifier.
    Invalid,
}

impl Node {
    /// The immediate shape of the node.
    pub open spec fn spec_shape(&self) -> Shape {
        match *self {
            Node::Bool(_) => Shape::Bool,
            Node::Signed(_) => Shape::Integer,
            Node::Unsigned(_) => Shape::Integer,
            Node::Float(_) => Shape::Float,
            Node::Char(_) => Shape::Char,
            Node::Text(_) => Shape::Text,
            Node::Bytes(_) => Shape::Bytes,
            Node::Absent => Shape::Absent,
            Node::Present(_) => Shape::Present,
            Node::Wrapper(_) => Shape::Wrapper,
            Node::Sequence(_) => Shape::Sequence,
            Node::Mapping(_) => Shape::Mapping,
        }
    }

    /// The immediate shape of the node.
    #[verifier::when_used_as_spec(spec_shape)]
    pub fn shape(&self) -> (r: Shape)
        ensures
            r == self.spec_shape(),
    {
        match self {
            Node::Bool(_) => Shape::Bool,
            Node::Signed(_) => Shape::Integer,
            Node::Unsigned(_) => Shape::Integer,
            Node::Float(_) => Shape::Float,
            Node::Char(_) => Shape::Char,
            Node::Text(_) => Shape::Text,
            Node::Bytes(_) => Shape::Bytes,
            Node::Absent => Shape::Absent,
            Node::Present(_) => Shape::Present,
            Node::Wrapper(_) => Shape::Wrapper,
            Node::Sequence(_) => Shape::Sequence,
            Node::Mapping(_) => Shape::Mapping,
        }
    }

    /// The node is the wrapper around exactly `bytes`.
    pub open spec fn wraps(self, bytes: Seq<u8>) -> bool {
        self matches Node::Wrapper(inner) && *inner matches Node::Bytes(b) && b@ == bytes
    }

    /// What the wrapper holds, read as an identifier: `None` where the node
    /// is no wrapper, wraps something other than bytes, or wraps bytes that
    /// are not those of an identifier.
    pub open spec fn address(self) -> Option<CidModel> {
        match self {
            Node::Wrapper(inner) => match *inner {
                Node::Bytes(b) => cid_from_bytes(b@),
                _ => None,
            },
            _ => None,
        }
    }

    /// The node read as a value or as a link, by its shape alone: presence
    /// markers are looked through, a wrapper is a link or invalid, and
    /// anything else is an inline value.
    pub open spec fn resolution(self) -> Resolution
        decreases self,
    {
        match self {
            Node::Present(inner) => inner.resolution(),
            Node::Wrapper(_) => match self.address() {
                Some(k) => Resolution::Link(k),
                None => Resolution::Invalid,
            },
            _ => Resolution::Value(self),
        }
    }

    /// The node that marks `k` as an identifier: the wrapper around the bytes
    /// of `k`. Reading it gives `k` back.
    pub fn link(k: &Cid) -> (r: Node)
        ensures
            r.wraps(cid_to_bytes(k@)),
            r.address() == Some(k@),
            r.resolution() == Resolution::Link(k@),
    {
        proof {
            use_type_invariant(k);
        }
        Node::Wrapper(Box::new(Node::Bytes(cid_bytes(k))))
    }

    /// Reads the wrapper around the bytes of an identifier, and nothing else.
    pub fn as_link(&self) -> (r: Result<Cid, FormatError>)
        ensures
            match self.address() {
                Some(m) => r matches Ok(k) && k.wf() && k@ == m,
                None => r == Err::<Cid, FormatError>(FormatError::InvalidAddress),
            },
    {
        match self {
            Node::Wrapper(inner) => match &**inner {
                Node::Bytes(b) => match parse_cid(b.as_slice()) {
                    Some(k) => Ok(k),
                    None => Err(FormatError::InvalidAddress),
                },
                _ => Err(FormatError::InvalidAddress),
            },
            _ => Err(FormatError::InvalidAddress),
        }
    }

    /// Reads the node as a value or as a link, without a schema. A value is
    /// handed back as the node to decode it from.
    pub fn resolve(&self) -> (r: Result<MaybeLink<&Node>, FormatError>)
        ensures
            match self.resolution() {
                Resolution::Value(n) => r == Ok::<MaybeLink<&Node>, FormatError>(MaybeLink::Value(&n)),
                Resolution::Link(m) => r matches Ok(MaybeLink::Link(k)) && k.wf() && k@ == m,
                Resolution::Invalid => r == Err::<MaybeLink<&Node>, FormatError>(
                    FormatError::InvalidAddress,
                ),
            },
        decreases self,
    {
        match self.shape().reading() {
            Reading::Nested => match self {
                Node::Present(inner) => inner.resolve(),
                _ => unreached(),
            },
            Reading::Address => match self.as_link() {
                Ok(k) => Ok(MaybeLink::Link(k)),
                Err(e) => Err(e),
            },
            Reading::Inline => Ok(MaybeLink::Value(self)),
        }
    }

    /// A byte string is a value, whatever its bytes; the wrapper around the
    /// same bytes is a link or invalid, and never a value.
    pub proof fn lemma_wrapper_decides(plain: Node, wrapped: Node, bytes: Vec<u8>)
        requires
            plain == Node::Bytes(bytes),
            wrapped.wraps(bytes@),
        ensures
            plain.resolution() == Resolution::Value(plain),
            wrapped.resolution() == match cid_from_bytes(bytes@) {
                Some(k) => Resolution::Link(k),
                None => Resolution::Invalid,
            },
    {
    }

    /// Where reading a node gives a value, the value is a node that is
    /// neither a wrapper nor a presence marker.
    pub proof fn lemma_value_is_inline(self)
        ensures
            self.resolution() matches Resolution::Value(n) ==> n.spec_shape().spec_reading()
                == Reading::Inline,
        decreases self,
    {
        match self {
            Node::Present(inner) => inner.lemma_value_is_inline(),
            _ => {},
        }
    }
}

impl<T> MaybeLink<&T> {
    /// The same form with the value in place of the reference to it.
    pub open spec fn owned(self) -> MaybeLink<T> {
        match self {
            MaybeLink::Value(v) => MaybeLink::Value(*v),
            MaybeLink::Link(k) => MaybeLink::Link(k),
        }
    }
}

/// An outcome that lends a form, with the value in place of the reference.
pub open spec fn lent_form<T, E>(r: Result<MaybeLink<&T>, E>) -> Result<MaybeLink<T>, E> {
    match r {
        Ok(m) => Ok(m.owned()),
        Err(e) => Err(e),
    }
}

impl<T> MaybeLink<T> {
    /// `r` is a possible outcome of decoding `node` with `decode_value` as the
    /// decoder of values: a link where the node resolves to one, and else
    /// what `decode_value` makes of the node that holds the value.
    pub open spec fn decodes<F: FnOnce(&Node) -> Option<T>>(
        node: Node,
        decode_value: F,
        r: Result<Self, FormatError>,
    ) -> bool {
        match node.resolution() {
            Resolution::Value(n) => exists|value: Option<T>| #[trigger]
                call_ensures(decode_value, (&n,), value) && r == match value {
                    Some(v) => Ok::<Self, FormatError>(MaybeLink::Value(v)),
                    None => Err(FormatError::InvalidValue),
                },
            Resolution::Link(m) => r matches Ok(MaybeLink::Link(k)) && k.wf() && k@ == m,
            Resolution::Invalid => r == Err::<Self, FormatError>(FormatError::InvalidAddress),
        }
    }

    /// `node` is a possible outcome of encoding the form with `encode_value`
    /// as the encoder of values: what `encode_value` makes of a value, and for
    /// a link the wrapper around the bytes of its identifier, which resolves
    /// to the link again.
    pub open spec fn encodes<F: FnOnce(&T) -> Node>(self, encode_value: F, node: Node) -> bool {
        match self {
            MaybeLink::Value(v) => call_ensures(encode_value, (&v,), node),
            MaybeLink::Link(k) => node.wraps(cid_to_bytes(k@)) && node.resolution()
                == Resolution::Link(k@),
        }
    }

    /// Decodes a node as a value or as a link, without a schema: the node is
    /// resolved by its shape, and a value is decoded by `decode_value` from
    /// the node that holds it.
    pub fn decode<F: FnOnce(&Node) -> Option<T>>(node: &Node, decode_value: F) -> (r: Result<
        Self,
        FormatError,
    >)
        requires
            node.resolution() matches Resolution::Value(n) ==> call_requires(decode_value, (&n,)),
        ensures
            Self::decodes(*node, decode_value, r),
    {
        match node.resolve() {
            Ok(MaybeLink::Value(n)) => match decode_value(n) {
                Some(v) => Ok(MaybeLink::Value(v)),
                None => Err(FormatError::InvalidValue),
            },
            Ok(MaybeLink::Link(k)) => Ok(MaybeLink::Link(k)),
            Err(e) => Err(e),
        }
    }

    /// Encodes the form: a value as `encode_value` encodes it, a link as the
    /// wrapper around the bytes of its identifier.
    pub fn encode<F: FnOnce(&T) -> Node>(&self, encode_value: F) -> (r: Node)
        requires
            self matches MaybeLink::Value(v) ==> call_requires(encode_value, (&v,)),
        ensures
            self.encodes(encode_value, r),
    {
        match self {
            MaybeLink::Value(v) => encode_value(v),
            MaybeLink::Link(k) => Node::link(k),
        }
    }

    /// Decoding what was encoded gives the form back, where the values'
    /// encoder and decoder agree and a value is encoded as a node that reads
    /// as a value by itself: not as a wrapper, and not as a presence marker.
    pub proof fn lemma_encode_then_decode<
        E: FnOnce(&T) -> Node,
        D: FnOnce(&Node) -> Option<T>,
    >(self, encode_value: E, decode_value: D, node: Node, r: Result<Self, FormatError>)
        requires
            self matches MaybeLink::Link(k) ==> k.wf(),
            self.encodes(encode_value, node),
            Self::decodes(node, decode_value, r),
            self matches MaybeLink::Value(v) ==> node.spec_shape().spec_reading() == Reading::Inline
                && forall|x: Option<T>| call_ensures(decode_value, (&node,), x) ==> x == Some(v),
        ensures
            r == Ok::<Self, FormatError>(self),
    {
        match self {
            MaybeLink::Value(v) => {
            },
            MaybeLink::Link(k) => {
                let back = r->Ok_0->Link_0;
                Cid::lemma_eq_by_parts(k, back);
            },
        }
    }
}

} // verus!
