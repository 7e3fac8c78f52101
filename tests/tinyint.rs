use api_v1::tinyint::{TinyInt, TinyIntError};

#[test]
fn zero_and_one_decode() {
    assert_eq!(TinyInt::decode(0), Ok(TinyInt(false)));
    assert_eq!(TinyInt::decode(1), Ok(TinyInt(true)));
    assert_eq!(TinyInt::try_from_u8(1), Ok(TinyInt(true)));
}

#[test]
fn other_integers_are_refused() {
    assert_eq!(TinyInt::decode(2), Err(TinyIntError::InvalidValue(2)));
    assert_eq!(TinyInt::decode(255), Err(TinyIntError::InvalidValue(255)));
    assert_eq!(TinyInt::decode(u64::MAX), Err(TinyIntError::InvalidValue(u64::MAX)));
    assert_eq!(TinyInt::try_from_u8(7), Err(TinyIntError::InvalidValue(7)));
}

#[test]
fn encode_and_display() {
    assert_eq!(TinyInt(true).encode(), 1);
    assert_eq!(TinyInt(false).encode(), 0);
    assert_eq!(TinyInt::from_bool(true).to_string(), "true");
    assert_eq!(TinyInt(false).to_string(), "false");
    for b in [false, true] {
        let t = TinyInt::from_bool(b);
        assert_eq!(TinyInt::decode(t.encode() as u64), Ok(t));
    }
}
