use c8common::key::Keys;
use c8common::{Address, Datum, GeneralRegister, Nibble};

#[test]
fn datum_nibbles() {
    let [high, low] = Datum(0xA7).as_nibbles();
    assert_eq!(high.as_half_byte(), 0xA);
    assert_eq!(low.as_half_byte(), 0x7);
    assert_eq!(high.byte_with(low), 0xA7);
    assert_eq!(Nibble::new_from_half_byte(0xF).byte_with(Nibble::new_from_half_byte(0x1)), 0xF1);
}

#[test]
fn datum_towards_zero() {
    let mut d = Datum(2);
    assert!(d.towards_zero());
    assert_eq!(d, Datum(1));
    assert!(d.towards_zero());
    assert_eq!(d.inner(), 0);
    assert!(!d.towards_zero());
    assert_eq!(d, Datum(0));
}

#[test]
fn datum_bit_operations() {
    assert_eq!(Datum(0b1100).bitor(Datum(0b1010)), Datum(0b1110));
    assert_eq!(Datum(0b1100).bitand(Datum(0b1010)), Datum(0b1000));
    assert_eq!(Datum(0b1100).bitxor(Datum(0b1010)), Datum(0b0110));
}

#[test]
fn address_parts() {
    let a = Address::from_triplet(0xA, 0xB, 0xC);
    assert_eq!(a.as_u16(), 0xABC);
    assert_eq!(a.to_bytes(), [0x0A, 0xBC]);
    assert_eq!(a.to_nibbles(), [0xA, 0xB, 0xC]);
    let mut b = Address::new(0xFFE);
    b.increment();
    assert_eq!(b.as_u16(), 0xFFF);
}

#[test]
fn register_indices() {
    assert_eq!(GeneralRegister::VF.index(), 15);
    assert_eq!(GeneralRegister::from_byte(10), GeneralRegister::VA);
    assert_eq!(GeneralRegister::from_byte_checked(16), None);
    assert_eq!(GeneralRegister::from_nibble(Nibble::new_from_half_byte(3)), GeneralRegister::V3);
    assert_eq!(GeneralRegister::V7.to_nibble().as_half_byte(), 7);
    assert_eq!(
        GeneralRegister::V2.until_including(),
        vec![GeneralRegister::V0, GeneralRegister::V1, GeneralRegister::V2]
    );
}

#[test]
fn register_names() {
    assert_eq!(GeneralRegister::from_name("V3"), Some(GeneralRegister::V3));
    assert_eq!(GeneralRegister::from_name("va"), Some(GeneralRegister::VA));
    assert_eq!(GeneralRegister::from_name("VF"), Some(GeneralRegister::VF));
    assert_eq!(GeneralRegister::from_name("VG"), None);
    assert_eq!(GeneralRegister::from_name("V10"), None);
    assert_eq!(GeneralRegister::from_name("V"), None);
}

fn keys_with(down: &[usize]) -> Keys {
    let mut raw = [false; 16];
    for &k in down {
        raw[k] = true;
    }
    Keys::from_raw(raw)
}

#[test]
fn keys_single_and_multiple() {
    assert!(!keys_with(&[]).pressed());
    assert_eq!(keys_with(&[]).one_key(), None);
    assert_eq!(keys_with(&[0xB]).one_key(), Some(Datum(0xB)));
    assert_eq!(keys_with(&[0xB]), Keys::from_number(0xB));
    assert_eq!(keys_with(&[1, 2]).one_key(), None);
    assert!(keys_with(&[1, 2]).pressed());
    assert_eq!(Keys::from_datum(Datum(4)), Keys::from_number(4));
    assert!(keys_with(&[1, 4]).bitand(Keys::from_number(4)).pressed());
    assert!(!keys_with(&[1, 5]).bitand(Keys::from_number(4)).pressed());
}
