use byondapi::bits32::{decode_u24, encode_u24, eq_bits};
use byondapi::error::Error;
use byondapi::host::Host;
use byondapi::value::{ByondValue, LIST_TAG, NUMBER_TAG, POINTER_TAG, STRING_TAG, TURF_TAG};

fn test_host() -> Host {
    Host::new(10, 10, 2)
}

#[test]
fn value_init_and_drop_bare() {
    let meow = ByondValue::new();
    std::hint::black_box(&meow);
    std::mem::drop(meow);
}

#[test]
fn value_init_and_drop_string() {
    let mut host = test_host();
    let meow = ByondValue::new_str(&mut host, &b"Meow meow meow meorw lwemow".to_vec());
    std::hint::black_box(&meow);
    std::mem::drop(meow);
}

#[test]
fn value_conversions() {
    let mut host = test_host();

    let null = ByondValue::new();
    assert!(null.is_null());
    assert!(!null.is_num());
    assert!(!null.is_str());
    assert!(!null.is_list());

    let number = ByondValue::new_num((42.0f32).to_bits());
    assert!(!number.is_null());
    assert!(number.is_num());
    assert!(!number.is_str());
    assert!(!number.is_list());

    let string = ByondValue::new_str(&mut host, &b"meow".to_vec()).unwrap();
    assert!(!string.is_null());
    assert!(!string.is_num());
    assert!(string.is_str());
    assert!(!string.is_list());
}

#[test]
fn value_equality() {
    let mut host = test_host();

    let number = ByondValue::new_num((42.0f32).to_bits());
    let number2 = ByondValue::new_num((42.0f32).to_bits());
    assert!(number.eq(&number2));

    let nan = ByondValue::new_num(f32::NAN.to_bits());
    let nan2 = ByondValue::new_num(f32::NAN.to_bits());
    assert!(nan.ne(&nan2));

    let string = ByondValue::new_str(&mut host, &b"meow".to_vec()).unwrap();
    let string2 = ByondValue::new_str(&mut host, &b"meow".to_vec()).unwrap();
    assert!(string.eq(&string2));

    let null = ByondValue::new();
    let null2 = ByondValue::new();
    assert!(null.eq(&null2));
}

#[test]
fn test_init_and_drop_bare() {
    let meow = ByondValue::new();
    std::hint::black_box(&meow);
    std::mem::drop(meow);
}

#[test]
fn test_init_and_drop_string() {
    let mut host = test_host();
    let meow = ByondValue::new_str(&mut host, &b"Meow meow meow meorw lwemow".to_vec());
    std::hint::black_box(&meow);
    std::mem::drop(meow);
}

#[test]
fn test_conversions() {
    let mut host = test_host();

    let null = ByondValue::new();
    assert!(null.is_null());
    assert!(!null.is_num());
    assert!(!null.is_str());
    assert!(!null.is_list());

    let number = ByondValue::new_num((42.0f32).to_bits());
    assert!(!number.is_null());
    assert!(number.is_num());
    assert!(!number.is_str());
    assert!(!number.is_list());

    let string = ByondValue::new_str(&mut host, &b"meow".to_vec()).unwrap();
    assert!(!string.is_null());
    assert!(!string.is_num());
    assert!(string.is_str());
    assert!(!string.is_list());
}

#[test]
fn test_equality() {
    let mut host = test_host();

    let number = ByondValue::new_num((42.0f32).to_bits());
    let number2 = ByondValue::new_num((42.0f32).to_bits());
    assert!(number.eq(&number2));

    let nan = ByondValue::new_num(f32::NAN.to_bits());
    let nan2 = ByondValue::new_num(f32::NAN.to_bits());
    assert!(nan.ne(&nan2));

    let string = ByondValue::new_str(&mut host, &b"meow".to_vec()).unwrap();
    let string2 = ByondValue::new_str(&mut host, &b"meow".to_vec()).unwrap();
    assert!(string.eq(&string2));

    let null = ByondValue::new();
    let null2 = ByondValue::new();
    assert!(null.eq(&null2));
}

#[test]
fn number_bits_round_trip_bit_for_bit() {
    for f in [0.0f32, -0.0, 1.0, -1.5, 42.0, f32::NAN, f32::INFINITY, 1.0e-40] {
        let v = ByondValue::new_num(f.to_bits());
        assert_eq!(v.get_number().unwrap(), f.to_bits());
    }
}

#[test]
fn number_extraction_fails_with_offending_value() {
    let null = ByondValue::new();
    match null.get_number() {
        Err(Error::NotANum(v)) => assert!(v.is_null()),
        other => panic!("expected the number-expected failure, got {:?}", other),
    }
}

#[test]
fn ieee_equality_on_bits() {
    assert!(eq_bits((0.0f32).to_bits(), (-0.0f32).to_bits()));
    assert!(eq_bits((2.5f32).to_bits(), (2.5f32).to_bits()));
    assert!(!eq_bits(f32::NAN.to_bits(), f32::NAN.to_bits()));
    assert!(!eq_bits((1.0f32).to_bits(), (2.0f32).to_bits()));
    assert!(eq_bits(f32::INFINITY.to_bits(), f32::INFINITY.to_bits()));
}

#[test]
fn small_integer_encoding_matches_ieee() {
    assert_eq!(encode_u24(0), (0.0f32).to_bits());
    assert_eq!(encode_u24(1), (1.0f32).to_bits());
    assert_eq!(encode_u24(4), (4.0f32).to_bits());
    assert_eq!(encode_u24(42), (42.0f32).to_bits());
    assert_eq!(encode_u24(0xff_ffff), (16777215.0f32).to_bits());
    assert_eq!(decode_u24((5.0f32).to_bits()), Some(5));
    assert_eq!(decode_u24((0.5f32).to_bits()), None);
    assert_eq!(decode_u24((-3.0f32).to_bits()), None);
    assert_eq!(decode_u24(f32::NAN.to_bits()), None);
    for n in [0u32, 1, 2, 3, 7, 100, 65535, 0xff_fffe] {
        assert_eq!(decode_u24(encode_u24(n)), Some(n));
    }
}

#[test]
fn get_bool_truncates_like_the_host() {
    assert_eq!(ByondValue::new_num((1.0f32).to_bits()).get_bool().unwrap(), true);
    assert_eq!(ByondValue::new_num((2.5f32).to_bits()).get_bool().unwrap(), true);
    assert_eq!(ByondValue::new_num((0.0f32).to_bits()).get_bool().unwrap(), false);
    assert_eq!(ByondValue::new_num((0.5f32).to_bits()).get_bool().unwrap(), false);
    assert_eq!(ByondValue::new_num((-1.0f32).to_bits()).get_bool().unwrap(), false);
    assert_eq!(ByondValue::new_num(f32::NAN.to_bits()).get_bool().unwrap(), false);
    assert!(matches!(ByondValue::new().get_bool(), Err(Error::NotANum(_))));
}

#[test]
fn truthiness() {
    let mut host = test_host();
    assert!(!ByondValue::null().is_true(&host));
    assert!(!ByondValue::new_num((0.0f32).to_bits()).is_true(&host));
    assert!(ByondValue::new_num((0.25f32).to_bits()).is_true(&host));
    let empty = ByondValue::new_str(&mut host, &b"".to_vec()).unwrap();
    assert!(!empty.is_true(&host));
    let full = ByondValue::new_str(&mut host, &b"x".to_vec()).unwrap();
    assert!(full.is_true(&host));
    assert!(ByondValue::new_global_ref().is_true(&host));
}

#[test]
fn string_round_trip_and_two_phase_read() {
    let mut host = test_host();
    let s = ByondValue::new_str(&mut host, &b"meow".to_vec()).unwrap();
    let mut buf = byondapi::buffer::ScratchBuffer::new();
    assert_eq!(buf.capacity, 0);
    let bytes = s.get_cstring(&mut host, &mut buf).unwrap();
    assert_eq!(bytes, b"meow\0".to_vec());
    assert_eq!(buf.capacity, 0);
    assert_eq!(s.get_string(&mut host).unwrap(), "meow");
    assert_eq!(s.get_strid().unwrap(), s.data);
    let len = s.builtin_length(&mut host).unwrap();
    assert_eq!(len.get_number().unwrap(), (4.0f32).to_bits());
}

#[test]
fn non_utf8_strings_are_rejected_as_text() {
    let mut host = test_host();
    let s = ByondValue::new_str(&mut host, &vec![0xffu8, 0xfe]).unwrap();
    assert!(matches!(s.get_string(&mut host), Err(Error::NonUtf8String)));
}

#[test]
fn interning_refuses_nul_bytes() {
    let mut host = test_host();
    match ByondValue::new_str(&mut host, &b"me\0ow".to_vec()) {
        Err(Error::UnableToCreateString(b)) => assert_eq!(b, b"me\0ow".to_vec()),
        other => panic!("expected the unable-to-create failure, got {:?}", other),
    }
}

#[test]
fn set_operations_replace_the_whole_value() {
    let mut host = test_host();
    let mut v = ByondValue::null();
    v.set_number((3.5f32).to_bits());
    assert!(v.is_num());
    assert_eq!(v.get_number().unwrap(), (3.5f32).to_bits());
    v.set_str(&mut host, &b"dog".to_vec()).unwrap();
    assert!(v.is_str());
    assert_eq!(v.get_string(&mut host).unwrap(), "dog");
    v.set_ref(TURF_TAG, 7);
    assert_eq!(v.get_type(), TURF_TAG);
    assert_eq!(v.get_ref().unwrap(), 7);
    let mut w = ByondValue::null();
    assert!(matches!(
        w.set_str(&mut host, &b"a\0b".to_vec()),
        Err(Error::UnableToCreateString(_))
    ));
    assert!(w.is_null());
}

#[test]
fn refs_and_kind_tags() {
    let v = ByondValue::new_ref(LIST_TAG, 9);
    assert!(v.is_list());
    assert_eq!(v.get_ref().unwrap(), 9);
    assert!(matches!(ByondValue::null().get_ref(), Err(Error::NotReferencable(_))));
    assert!(matches!(
        ByondValue::new_num(0).get_ref(),
        Err(Error::NotReferencable(_))
    ));
    let p = ByondValue::new_ref(POINTER_TAG, 0);
    assert!(p.is_ptr());
    let s = ByondValue::new_ref(STRING_TAG, 0);
    assert!(matches!(s.get_ref(), Err(Error::NotReferencable(_))));
    assert!(matches!(s.get_number(), Err(Error::NotANum(_))));
    assert!(matches!(ByondValue::null().get_strid(), Err(Error::NotAString(_))));
    assert_eq!(ByondValue::new_num(7).get_type(), NUMBER_TAG);
}

#[test]
fn pointer_read_and_write() {
    let mut host = test_host();
    let inner = ByondValue::new_str(&mut host, &b"content".to_vec()).unwrap();
    let cell = host.new_cell(inner).unwrap();
    let ptr_value = ByondValue::new_ref(POINTER_TAG, cell);
    let pointer = byondapi::value::pointer::ByondValuePointer::new(ptr_value).unwrap();
    let read_back = pointer.read(&mut host).unwrap();
    assert!(read_back.eq(&inner));
    let replacement = ByondValue::new_num((8.0f32).to_bits());
    pointer.write(&mut host, &replacement).unwrap();
    assert!(pointer.read(&mut host).unwrap().eq(&replacement));
    assert!(matches!(
        byondapi::value::pointer::ByondValuePointer::new(ByondValue::null()),
        Err(Error::NotAPtr(_))
    ));
}

#[test]
fn refcount_wrapper_takes_and_returns_one_reference() {
    let mut host = test_host();
    let list = ByondValue::new_list(&mut host).unwrap();
    assert_eq!(list.get_refcount(&mut host).unwrap(), 1);
    let guard = byondapi::value::refcounted::RcByondValue::new(&mut host, list);
    assert_eq!(guard.value().get_refcount(&mut host).unwrap(), 2);
    let back = guard.release(&mut host);
    assert_eq!(back.get_refcount(&mut host).unwrap(), 1);
    assert!(matches!(
        ByondValue::new_num(0).get_refcount(&mut host),
        Err(Error::ByondError(_))
    ));
}

#[test]
fn booleans_convert_to_host_numbers() {
    let t = ByondValue::from(true);
    let f = ByondValue::from(false);
    assert_eq!(t.get_number().unwrap(), (1.0f32).to_bits());
    assert_eq!(f.get_number().unwrap(), (0.0f32).to_bits());
    assert_eq!(t.get_bool().unwrap(), true);
    assert_eq!(f.get_bool().unwrap(), false);
}
