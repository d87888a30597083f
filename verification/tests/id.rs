use cayopay_server::id::Id;
use cayopay_server::models::{User, UserId};

#[test]
fn id_text_is_hyphenated_lower_case_uuid() {
    let id: UserId = Id::from_uuid(0xa1a2a3a4_b1b2_c1c2_d1d2_d3d4d5d6d7d8);
    assert_eq!(id.to_text(), "a1a2a3a4-b1b2-c1c2-d1d2-d3d4d5d6d7d8");
    let zero: UserId = Id::from_uuid(0);
    assert_eq!(zero.to_text(), "00000000-0000-0000-0000-000000000000");
}

#[test]
fn id_keeps_its_value() {
    let id: Id<User> = Id::from_uuid(42);
    let copy = id;
    let cast: Id<()> = id.cast();
    assert_eq!(copy.into_inner(), 42);
    assert_eq!(cast.into_inner(), 42);
    assert_eq!(id.clone().into_inner(), 42);
}

#[test]
fn new_ids_are_version_7() {
    let a: UserId = Id::new();
    let b: UserId = Id::default();
    for bits in [a.into_inner(), b.into_inner()] {
        assert_eq!((bits >> 76) & 0xf, 7);
        assert_eq!((bits >> 62) & 0x3, 2);
    }
    assert_ne!(a.into_inner(), b.into_inner());
    assert_eq!(&a.to_text()[14..15], "7");
}

#[test]
fn id_text_reads_back() {
    let id: UserId = Id::from_uuid(0x0190_1234_5678_7abc_8def_0123_4567_89ab);
    let back: UserId = Id::parse_str(&id.to_text()).unwrap();
    assert!(back == id);
    let braced: UserId = "{01901234-5678-7abc-8def-0123456789ab}".parse().unwrap();
    assert!(braced == id);
    let simple: UserId = Id::parse_str("0190123456787abc8def0123456789ab").unwrap();
    assert!(simple == id);
    assert!(Id::<User>::parse_str("not-a-uuid").is_err());
    assert!(Id::<User>::from_uuid(1) != Id::<User>::from_uuid(2));
}
