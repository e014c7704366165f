//! Tests of path resolution over structured values.

use beacon_core::ipld::{can_resolve, resolve, CborIpld, IpldValue, SubPath};

fn file_value() -> IpldValue {
    IpldValue::Object(vec![
        (String::from("data"), IpldValue::Text(String::from("hello world"))),
        (String::from("size"), IpldValue::U64(11)),
    ])
}

#[test]
fn test_cat_file() {
    let file_val = file_value();
    let cbor_ipld = CborIpld;
    let result = cbor_ipld.cat(&file_val, &vec![SubPath::Key(String::from("data"))]);

    match result {
        IpldValue::Text(val) => assert_eq!(val, "hello world"),
        _ => panic!("Wrong value"),
    }
}

fn chunk(link: &str, size: u64) -> IpldValue {
    IpldValue::Object(vec![
        (String::from("link"), IpldValue::Text(String::from(link))),
        (String::from("size"), IpldValue::U64(size)),
    ])
}

#[test]
fn test_cat_chunked_file() {
    let file_val = IpldValue::Object(vec![
        (String::from("size"), IpldValue::U64(1424119)),
        (
            String::from("subfiles"),
            IpldValue::Array(vec![chunk("QmAAA", 100324), chunk("QmBBB", 120345)]),
        ),
    ]);

    let cbor_ipld = CborIpld;
    let result = cbor_ipld.cat(
        &file_val,
        &vec![
            SubPath::Key(String::from("subfiles")),
            SubPath::Index(1),
            SubPath::Key(String::from("link")),
        ],
    );

    match result {
        IpldValue::Text(val) => assert_eq!(val, "QmBBB"),
        _ => panic!("Wrong value"),
    }
}

#[test]
fn resolving_a_step_follows_keys_and_indices() {
    let v = file_value();
    let key = SubPath::Key(String::from("size"));
    assert!(can_resolve(&v, &key));
    match resolve(&v, &key) {
        IpldValue::U64(n) => assert_eq!(*n, 11),
        _ => panic!("Wrong value"),
    }

    let missing = SubPath::Key(String::from("nope"));
    assert!(!can_resolve(&v, &missing));

    let arr = IpldValue::Array(vec![IpldValue::U64(1), IpldValue::U64(2)]);
    assert!(can_resolve(&arr, &SubPath::Index(1)));
    assert!(!can_resolve(&arr, &SubPath::Index(2)));
    match resolve(&arr, &SubPath::Index(1)) {
        IpldValue::U64(n) => assert_eq!(*n, 2),
        _ => panic!("Wrong value"),
    }
}

#[test]
fn scalars_absorb_remaining_path_steps() {
    let v = IpldValue::U64(9);
    let cbor_ipld = CborIpld;
    let r = cbor_ipld.cat(&v, &vec![SubPath::Key(String::from("anything"))]);
    match r {
        IpldValue::U64(n) => assert_eq!(*n, 9),
        _ => panic!("Wrong value"),
    }
}
