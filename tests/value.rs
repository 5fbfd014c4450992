use malachite_simulator::value::{BaseValue, BaseValueId};

#[test]
fn value_encoding_is_big_endian() {
    let b = BaseValue(45).to_bytes();
    assert_eq!(b.to_vec(), vec![0, 0, 0, 0, 0, 0, 0, 45]);
    let b = BaseValue(0x0102_0304_0506_0708).to_bytes();
    assert_eq!(b.to_vec(), vec![1, 2, 3, 4, 5, 6, 7, 8]);
}

#[test]
fn value_decodes_known_bytes() {
    let b = bytes::Bytes::from(vec![0xff, 0, 0, 0, 0, 0, 0x01, 0x00]);
    assert_eq!(BaseValue::from_bytes(&b), BaseValue(0xff00_0000_0000_0100));
}

#[test]
fn value_round_trip() {
    for v in [0u64, 1, 45, 255, 256, 0x8000_0000_0000_0000, u64::MAX] {
        let value = BaseValue(v);
        assert_eq!(BaseValue::from_bytes(&value.to_bytes()), value);
    }
}

#[test]
fn value_id_equals_value() {
    assert_eq!(BaseValue(77).id(), BaseValueId(77));
}
