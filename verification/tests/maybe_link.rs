use auto_ipld::{Cid, FormatError, MaybeLink, Node, Reading, Shape};

fn real_bytes(codec: u64, mh_code: u64, digest: &[u8]) -> Vec<u8> {
    let hash = cid::multihash::Multihash::<64>::wrap(mh_code, digest).unwrap();
    cid::Cid::new_v1(codec, hash).to_bytes()
}

fn wrapper(bytes: Vec<u8>) -> Node {
    Node::Wrapper(Box::new(Node::Bytes(bytes)))
}

fn bytes_of(node: &Node) -> Option<Vec<u8>> {
    match node {
        Node::Bytes(b) => Some(b.clone()),
        _ => None,
    }
}

#[test]
fn only_the_wrapper_reads_as_an_address() {
    let shapes = [
        Shape::Bool,
        Shape::Integer,
        Shape::Float,
        Shape::Char,
        Shape::Text,
        Shape::Bytes,
        Shape::Absent,
        Shape::Sequence,
        Shape::Mapping,
    ];
    for shape in shapes {
        assert_eq!(shape.reading(), Reading::Inline);
    }
    assert_eq!(Shape::Present.reading(), Reading::Nested);
    assert_eq!(Shape::Wrapper.reading(), Reading::Address);
}

#[test]
fn every_node_has_its_shape() {
    assert_eq!(Node::Bool(true).shape(), Shape::Bool);
    assert_eq!(Node::Signed(-1).shape(), Shape::Integer);
    assert_eq!(Node::Unsigned(1).shape(), Shape::Integer);
    assert_eq!(Node::Float(1.5f64.to_bits()).shape(), Shape::Float);
    assert_eq!(Node::Char('x').shape(), Shape::Char);
    assert_eq!(Node::Text(String::from("ab")).shape(), Shape::Text);
    assert_eq!(Node::Bytes(vec![1]).shape(), Shape::Bytes);
    assert_eq!(Node::Absent.shape(), Shape::Absent);
    assert_eq!(Node::Present(Box::new(Node::Absent)).shape(), Shape::Present);
    assert_eq!(Node::Wrapper(Box::new(Node::Absent)).shape(), Shape::Wrapper);
    assert_eq!(Node::Sequence(vec![]).shape(), Shape::Sequence);
    assert_eq!(Node::Mapping(vec![]).shape(), Shape::Mapping);
}

#[test]
fn primitives_sequences_and_mappings_resolve_to_themselves() {
    let nodes = vec![
        Node::Bool(false),
        Node::Signed(-7),
        Node::Unsigned(7),
        Node::Float(0),
        Node::Char('c'),
        Node::Text(String::from("ab")),
        Node::Bytes(vec![1, 2]),
        Node::Absent,
        Node::Sequence(vec![Node::Bool(true), Node::Absent]),
        Node::Mapping(vec![(Node::Text(String::from("k")), Node::Unsigned(1))]),
    ];
    for node in &nodes {
        assert_eq!(node.resolve(), Ok(MaybeLink::Value(node)));
    }
}

#[test]
fn presence_markers_are_looked_through() {
    let inner = Node::Unsigned(5);
    let node = Node::Present(Box::new(Node::Present(Box::new(Node::Unsigned(5)))));
    assert_eq!(node.resolve(), Ok(MaybeLink::Value(&inner)));
    let k = Cid::new(0x71, 0x12, &[3; 32]).unwrap();
    let link = Node::Present(Box::new(Node::link(&k)));
    assert_eq!(link.resolve(), Ok(MaybeLink::Link(k)));
}

#[test]
fn bytes_are_a_value_and_the_same_bytes_wrapped_are_a_link() {
    let raw = real_bytes(0x71, 0x12, &[7; 32]);
    let plain = Node::Bytes(raw.clone());
    assert_eq!(plain.resolve(), Ok(MaybeLink::Value(&plain)));
    let expected = Cid::new(0x71, 0x12, &[7; 32]).unwrap();
    assert_eq!(wrapper(raw).resolve(), Ok(MaybeLink::Link(expected)));
}

#[test]
fn wrapped_bytes_are_parsed_as_an_identifier() {
    let k = wrapper(real_bytes(0x55, 0x1e, &[1, 2, 3, 4])).as_link().unwrap();
    assert_eq!(k.codec(), 0x55);
    assert_eq!(k.mh_code(), 0x1e);
    assert_eq!(k.digest(), vec![1u8, 2, 3, 4]);
}

#[test]
fn wrapped_bytes_with_wide_tags_are_parsed() {
    let k = wrapper(real_bytes(0x0129, 0xb220, &[9; 64])).as_link().unwrap();
    assert_eq!(k, Cid::new(0x0129, 0xb220, &[9; 64]).unwrap());
}

#[test]
fn wrapped_bytes_of_the_old_version_are_parsed() {
    let mut raw = vec![0x12, 0x20];
    raw.extend_from_slice(&[5; 32]);
    assert_eq!(wrapper(raw).as_link(), Ok(Cid::new(0x70, 0x12, &[5; 32]).unwrap()));
}

#[test]
fn wrapper_around_bytes_that_are_no_identifier_is_refused() {
    assert_eq!(wrapper(vec![]).as_link(), Err(FormatError::InvalidAddress));
    assert_eq!(wrapper(vec![0x01]).resolve(), Err(FormatError::InvalidAddress));
    assert_eq!(wrapper(vec![0x02, 0x55, 0x00, 0x00]).resolve(), Err(FormatError::InvalidAddress));
    let mut cut = real_bytes(0x71, 0x12, &[7; 32]);
    cut.pop();
    assert_eq!(wrapper(cut).resolve(), Err(FormatError::InvalidAddress));
    let mut long = vec![0x01, 0x55, 0x00, 65];
    long.extend_from_slice(&[0; 65]);
    assert_eq!(wrapper(long).resolve(), Err(FormatError::InvalidAddress));
}

#[test]
fn wrapper_around_something_else_is_refused() {
    let node = Node::Wrapper(Box::new(Node::Text(String::from("bafy"))));
    assert_eq!(node.resolve(), Err(FormatError::InvalidAddress));
    assert_eq!(node.as_link(), Err(FormatError::InvalidAddress));
    assert_eq!(Node::Bytes(real_bytes(0x71, 0x12, &[7; 32])).as_link(), Err(FormatError::InvalidAddress));
}

#[test]
fn link_node_holds_the_bytes_of_the_identifier() {
    let k = Cid::new(0x71, 0x12, &[7; 32]).unwrap();
    assert_eq!(Node::link(&k), wrapper(real_bytes(0x71, 0x12, &[7; 32])));
    let mut expected = vec![0x01, 0x71, 0x12, 0x20];
    expected.extend_from_slice(&[7; 32]);
    assert_eq!(Node::link(&k), wrapper(expected));
}

#[test]
fn link_node_reads_back_as_the_identifier() {
    for digest in [vec![], vec![1u8], vec![2u8; 64]] {
        let k = Cid::new(0xffff_ffff_ffff, 0x1234_5678, &digest).unwrap();
        assert_eq!(Node::link(&k).as_link(), Ok(k));
    }
}

#[test]
fn decode_hands_the_value_node_to_the_decoder() {
    let node = Node::Present(Box::new(Node::Bytes(vec![1, 2])));
    let form: Result<MaybeLink<Vec<u8>>, FormatError> = MaybeLink::decode(&node, bytes_of);
    assert_eq!(form, Ok(MaybeLink::Value(vec![1u8, 2])));
}

#[test]
fn decode_fails_where_the_decoder_fails() {
    let node = Node::Text(String::from("ab"));
    let form: Result<MaybeLink<Vec<u8>>, FormatError> = MaybeLink::decode(&node, bytes_of);
    assert_eq!(form, Err(FormatError::InvalidValue));
}

#[test]
fn decode_of_a_link_leaves_the_decoder_alone() {
    let k = Cid::new(0x71, 0x12, &[7; 32]).unwrap();
    let form: Result<MaybeLink<Vec<u8>>, FormatError> =
        MaybeLink::decode(&Node::link(&k), |_| panic!("no value to decode"));
    assert_eq!(form, Ok(MaybeLink::Link(k)));
    let bad: Result<MaybeLink<Vec<u8>>, FormatError> =
        MaybeLink::decode(&wrapper(vec![0xff]), |_| panic!("no value to decode"));
    assert_eq!(bad, Err(FormatError::InvalidAddress));
}

#[test]
fn encode_then_decode_gives_the_form_back() {
    let value: MaybeLink<Vec<u8>> = MaybeLink::Value(vec![1, 2, 3]);
    let node = value.encode(|b| Node::Bytes(b.clone()));
    assert_eq!(node, Node::Bytes(vec![1, 2, 3]));
    assert_eq!(MaybeLink::decode(&node, bytes_of), Ok(value));

    let link: MaybeLink<Vec<u8>> = MaybeLink::Link(Cid::new(0x55, 0, &[1, 2, 3]).unwrap());
    let node = link.encode(|_| panic!("no value to encode"));
    assert_eq!(MaybeLink::decode(&node, bytes_of), Ok(link));
}
