use gitsync::digits::{decimal, push_decimal, push_hex};
use gitsync::object_id::{ObjectId, OBJECT_ID_BYTES};

#[test]
fn decimal_of_small_numbers() {
    assert_eq!(decimal(0), "0");
    assert_eq!(decimal(7), "7");
    assert_eq!(decimal(10), "10");
    assert_eq!(decimal(109), "109");
    assert_eq!(decimal(1000), "1000");
}

#[test]
fn decimal_of_the_largest_number() {
    assert_eq!(decimal(usize::MAX), usize::MAX.to_string());
}

#[test]
fn decimal_agrees_with_std_around_powers_of_ten() {
    let mut power: usize = 1;
    for _ in 0..9 {
        for n in [power - 1, power, power + 1] {
            assert_eq!(decimal(n), n.to_string());
        }
        power *= 10;
    }
}

#[test]
fn push_decimal_appends() {
    let mut text = String::from("n=");
    push_decimal(&mut text, 42);
    push_decimal(&mut text, 0);
    assert_eq!(text, "n=420");
}

#[test]
fn push_hex_appends_two_digits_for_each_byte() {
    let mut text = String::from("0x");
    push_hex(&mut text, &[0x00, 0x0f, 0xf0, 0xa9, 0xff]);
    assert_eq!(text, "0x000ff0a9ff");
    push_hex(&mut text, &[]);
    assert_eq!(text, "0x000ff0a9ff");
}

#[test]
fn push_hex_of_every_byte() {
    for byte in 0..=255u8 {
        let mut text = String::new();
        push_hex(&mut text, &[byte]);
        assert_eq!(text, format!("{:02x}", byte));
    }
}

#[test]
fn zero_id_is_zero() {
    let zero = ObjectId::zero();
    assert_eq!(zero.bytes, [0u8; 20]);
    assert!(zero.is_zero());
    assert_eq!(zero.to_hex(), "0000000000000000000000000000000000000000");
}

#[test]
fn id_with_one_set_bit_is_not_zero() {
    for at in 0..OBJECT_ID_BYTES {
        let mut bytes = [0u8; 20];
        bytes[at] = 1;
        assert!(!ObjectId { bytes }.is_zero());
    }
}

#[test]
fn id_from_twenty_bytes() {
    let raw: Vec<u8> = (1..=20).collect();
    let id = ObjectId::from_bytes(&raw).unwrap();
    assert_eq!(id.bytes.to_vec(), raw);
    assert_eq!(id.to_hex(), "0102030405060708090a0b0c0d0e0f1011121314");
}

#[test]
fn id_from_another_number_of_bytes_is_refused() {
    assert_eq!(ObjectId::from_bytes(&[]), None);
    assert_eq!(ObjectId::from_bytes(&[0u8; 19]), None);
    assert_eq!(ObjectId::from_bytes(&[0u8; 21]), None);
    assert_eq!(ObjectId::from_bytes(&[0u8; 32]), None);
}

#[test]
fn id_in_hex_is_what_the_git_library_prints() {
    let raw: Vec<u8> = (0..20).map(|i| (i * 13 + 200) as u8).collect();
    let id = ObjectId::from_bytes(&raw).unwrap();
    let oid = git2::Oid::from_bytes(&raw).unwrap();
    assert_eq!(id.to_hex(), oid.to_string());
    assert_eq!(ObjectId::from_bytes(oid.as_bytes()), Some(id));
}
