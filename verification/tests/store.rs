use auto_ipld::{Cid, CidShape, Magic, MagicStore, StaticStore};

/// A stateless backend whose identifiers carry the stored bytes as their
/// digest, so that loading needs no memory. It follows the hint.
struct Echo;

impl StaticStore<Vec<u8>> for Echo {
    type Error = String;

    fn store_bytes(value: &[u8], shape: Option<&CidShape>) -> Result<Cid, String> {
        let (codec, mh_code) = match shape {
            Some(s) => (s.codec, s.mh_code),
            None => (0x55, 0x00),
        };
        Cid::new(codec, mh_code, value).ok_or(String::from("too long"))
    }

    fn encode(value: &Vec<u8>) -> Result<Vec<u8>, String> {
        Ok(value.clone())
    }

    fn load_bytes(k: &Cid) -> Result<Vec<u8>, String> {
        Ok(k.digest())
    }

    fn decode(bytes: &[u8]) -> Result<Vec<u8>, String> {
        Ok(bytes.to_vec())
    }
}

/// A backend whose encoder always fails.
struct Mute;

impl StaticStore<u8> for Mute {
    type Error = &'static str;

    fn store_bytes(_value: &[u8], _shape: Option<&CidShape>) -> Result<Cid, &'static str> {
        Err("store_bytes")
    }

    fn encode(_value: &u8) -> Result<Vec<u8>, &'static str> {
        Err("encode")
    }

    fn load_bytes(_k: &Cid) -> Result<Vec<u8>, &'static str> {
        Err("load_bytes")
    }

    fn decode(_bytes: &[u8]) -> Result<u8, &'static str> {
        Err("decode")
    }
}

#[test]
fn store_is_encode_then_store_bytes() {
    let v = vec![1u8, 2, 3];
    let k = Echo::store(&v, None).unwrap();
    assert_eq!(k, Echo::store_bytes(&Echo::encode(&v).unwrap(), None).unwrap());
    assert_eq!(k.codec(), 0x55);
    assert_eq!(k.digest(), v);
}

#[test]
fn load_is_load_bytes_then_decode() {
    let k = Cid::new(0x55, 0, &[4, 5]).unwrap();
    assert_eq!(Echo::load(&k), Echo::decode(&Echo::load_bytes(&k).unwrap()));
    assert_eq!(Echo::load(&k), Ok(vec![4u8, 5]));
}

#[test]
fn store_hands_the_hint_on() {
    let shape = CidShape { codec: 0x71, mh_code: 0x12 };
    let k = Echo::store(&vec![7u8], Some(&shape)).unwrap();
    assert_eq!(CidShape::from(&k), shape);
}

#[test]
fn store_fails_where_encode_fails() {
    assert_eq!(Mute::store(&1, None), Err("encode"));
}

#[test]
fn load_fails_where_load_bytes_fails() {
    let k = Cid::new(0x55, 0, &[1]).unwrap();
    assert_eq!(Mute::load(&k), Err("load_bytes"));
}

#[test]
fn store_fails_where_store_bytes_fails() {
    let too_long = vec![0u8; 65];
    assert_eq!(Echo::store(&too_long, None), Err(String::from("too long")));
}

#[test]
fn magic_forwards_to_the_backend() {
    let v = vec![9u8; 4];
    let shape = CidShape { codec: 0x71, mh_code: 0x12 };
    let k = <Magic<Echo> as StaticStore<Vec<u8>>>::store(&v, Some(&shape)).unwrap();
    assert_eq!(k, Echo::store(&v, Some(&shape)).unwrap());
    assert_eq!(<Magic<Echo> as StaticStore<Vec<u8>>>::load(&k), Ok(v.clone()));
    assert_eq!(<Magic<Echo> as StaticStore<Vec<u8>>>::encode(&v), Ok(v.clone()));
    assert_eq!(<Magic<Echo> as StaticStore<Vec<u8>>>::decode(&v), Ok(v.clone()));
    assert_eq!(<Magic<Echo> as StaticStore<Vec<u8>>>::load_bytes(&k), Ok(v.clone()));
    assert_eq!(<Magic<Echo> as StaticStore<Vec<u8>>>::store_bytes(&v, None), Echo::store_bytes(&v, None));
    assert_eq!(<Magic<Mute> as StaticStore<u8>>::store(&1, None), Err("encode"));
}

#[test]
fn magic_unwraps_a_success() {
    let k = Cid::new(0x55, 0, &[4, 5]).unwrap();
    let v = <Magic<Echo> as MagicStore<Vec<u8>>>::unwrap(<Magic<Echo> as StaticStore<Vec<u8>>>::load(&k));
    assert_eq!(v, vec![4u8, 5]);
}

#[test]
fn cell_works_through_magic_as_through_the_backend() {
    let mut plain: auto_ipld::Link<Vec<u8>, Echo> = auto_ipld::Link::from_value(vec![1, 2], None);
    let mut magic: auto_ipld::Link<Vec<u8>, Magic<Echo>> = auto_ipld::Link::from_value(vec![1, 2], None);
    assert_eq!(plain.save(), magic.save());
    let k = magic.free().unwrap();
    assert_eq!(<Magic<Echo> as MagicStore<Vec<u8>>>::unwrap(magic.read()), &vec![1u8, 2]);
    assert_eq!(magic.save(), Ok(k));
}
