use byondapi::buffer::ScratchBuffer;
use byondapi::error::Error;
use byondapi::host::Host;
use byondapi::value::ByondValue;

fn test_host() -> Host {
    Host::new(10, 10, 2)
}

fn num(f: f32) -> ByondValue {
    ByondValue::new_num(f.to_bits())
}

#[test]
fn push_then_read_round_trip() {
    let mut host = test_host();
    let mut list = ByondValue::new_list(&mut host).unwrap();
    let pushed = [num(1.0), num(2.5), num(-3.0)];
    for v in pushed {
        list.push_list(&mut host, v).unwrap();
    }
    let mut buf = ScratchBuffer::new();
    let values = list.get_list_values(&mut host, &mut buf).unwrap();
    assert_eq!(values.len(), 3);
    for (got, expected) in values.iter().zip(pushed.iter()) {
        assert!(got.eq(expected));
    }
}

#[test]
fn two_phase_read_from_empty_buffer_yields_all_elements() {
    let mut host = test_host();
    let mut list = ByondValue::new_list(&mut host).unwrap();
    for i in 1..=5 {
        list.push_list(&mut host, num(i as f32)).unwrap();
    }
    // A fresh scratch buffer has capacity zero, so the first host call must
    // report the true length and the single retry must deliver everything.
    let mut buf = ScratchBuffer::new();
    assert_eq!(buf.capacity, 0);
    let values = list.get_list_values(&mut host, &mut buf).unwrap();
    assert_eq!(values.len(), 5);
    assert_eq!(buf.capacity, 0);
}

#[test]
fn pop_returns_last_and_shrinks_by_one() {
    let mut host = test_host();
    let mut list = ByondValue::new_list(&mut host).unwrap();
    for i in 1..=4 {
        list.push_list(&mut host, num(i as f32)).unwrap();
    }
    let popped = list.pop_list(&mut host).unwrap().unwrap();
    assert!(popped.eq(&num(4.0)));
    let len = list.builtin_length(&mut host).unwrap();
    assert_eq!(len.get_number().unwrap(), (3.0f32).to_bits());
}

#[test]
fn pop_on_empty_list_returns_no_value_without_error() {
    let mut host = test_host();
    let mut list = ByondValue::new_list(&mut host).unwrap();
    assert!(list.pop_list(&mut host).unwrap().is_none());
    let mut not_a_list = ByondValue::null();
    assert!(matches!(not_a_list.pop_list(&mut host), Err(Error::NotAList(_))));
}

#[test]
fn index_write_then_read_returns_written_value() {
    let mut host = test_host();
    let mut list = ByondValue::new_list(&mut host).unwrap();
    let key = ByondValue::new_str(&mut host, &b"cat".to_vec()).unwrap();
    list.write_list_index(&mut host, key, num(7.0)).unwrap();
    let got = list.read_list_index(&mut host, key).unwrap();
    assert!(got.eq(&num(7.0)));
    // Overwriting the same key keeps one slot and replaces the association.
    list.write_list_index(&mut host, key, num(9.0)).unwrap();
    let got = list.read_list_index(&mut host, key).unwrap();
    assert!(got.eq(&num(9.0)));
    let len = list.builtin_length(&mut host).unwrap();
    assert_eq!(len.get_number().unwrap(), (1.0f32).to_bits());
}

#[test]
fn reading_a_nonexistent_key_surfaces_a_host_error() {
    let mut host = test_host();
    let list = ByondValue::new_list(&mut host).unwrap();
    let key = ByondValue::new_str(&mut host, &b"dog".to_vec()).unwrap();
    assert!(matches!(
        list.read_list_index(&mut host, key),
        Err(Error::ByondError(_))
    ));
    assert!(matches!(
        ByondValue::null().read_list_index(&mut host, key),
        Err(Error::NotAList(_))
    ));
}

#[test]
fn numeric_indices_are_one_based() {
    let mut host = test_host();
    let mut list = ByondValue::new_list(&mut host).unwrap();
    list.push_list(&mut host, num(10.0)).unwrap();
    list.push_list(&mut host, num(20.0)).unwrap();
    let first = list.read_list_index(&mut host, num(1.0)).unwrap();
    assert!(first.eq(&num(10.0)));
    let second = list.read_list_index(&mut host, num(2.0)).unwrap();
    assert!(second.eq(&num(20.0)));
    assert!(matches!(
        list.read_list_index(&mut host, num(0.0)),
        Err(Error::ByondError(_))
    ));
    assert!(matches!(
        list.read_list_index(&mut host, num(3.0)),
        Err(Error::ByondError(_))
    ));
    list.write_list_index(&mut host, num(2.0), num(25.0)).unwrap();
    let second = list.read_list_index(&mut host, num(2.0)).unwrap();
    assert!(second.eq(&num(25.0)));
}

#[test]
fn write_list_replaces_contents() {
    let mut host = test_host();
    let mut list = ByondValue::new_list(&mut host).unwrap();
    list.push_list(&mut host, num(1.0)).unwrap();
    let replacement = vec![num(5.0), num(6.0)];
    list.write_list(&mut host, &replacement).unwrap();
    let mut buf = ScratchBuffer::new();
    let values = list.get_list_values(&mut host, &mut buf).unwrap();
    assert_eq!(values.len(), 2);
    assert!(values[0].eq(&num(5.0)));
    assert!(values[1].eq(&num(6.0)));
}

#[test]
fn assoc_read_interleaves_keys_and_values() {
    let mut host = test_host();
    let mut list = ByondValue::new_list(&mut host).unwrap();
    let cat = ByondValue::new_str(&mut host, &b"cat".to_vec()).unwrap();
    list.write_list_index(&mut host, cat, num(7.0)).unwrap();
    let mut buf = ScratchBuffer::new();
    let flat = list.get_list(&mut host, &mut buf).unwrap();
    assert_eq!(flat.len(), 2);
    assert!(flat[0].eq(&cat));
    assert!(flat[1].eq(&num(7.0)));
}

#[test]
fn key_lookup_scenario() {
    let mut host = test_host();
    let mut list = ByondValue::new_list(&mut host).unwrap();
    let cat = ByondValue::new_str(&mut host, &b"cat".to_vec()).unwrap();
    let dog = ByondValue::new_str(&mut host, &b"dog".to_vec()).unwrap();
    let parrot = ByondValue::new_str(&mut host, &b"parrot".to_vec()).unwrap();
    list.write_list_index(&mut host, cat, num(7.0)).unwrap();
    list.write_list_index(&mut host, dog, num(5.0)).unwrap();
    list.write_list_index(&mut host, parrot, num(4.0)).unwrap();

    assert!(list.read_list_index(&mut host, cat).unwrap().eq(&num(7.0)));
    assert!(list.read_list_index(&mut host, dog).unwrap().eq(&num(5.0)));
    assert!(list.read_list_index(&mut host, parrot).unwrap().eq(&num(4.0)));

    list.write_list_index(&mut host, parrot, num(14.0)).unwrap();

    let key = list.read_list_index(&mut host, num(3.0)).unwrap();
    assert_eq!(key.get_string(&mut host).unwrap(), "parrot");

    let mut pairs = list.iter(&mut host).unwrap();
    let mut collected: Vec<(String, u32)> = Vec::new();
    while let Some((k, v)) = pairs.next(&mut host) {
        collected.push((k.get_string(&mut host).unwrap(), v.get_number().unwrap()));
    }
    assert_eq!(
        collected,
        vec![
            ("cat".to_owned(), (7.0f32).to_bits()),
            ("dog".to_owned(), (5.0f32).to_bits()),
            ("parrot".to_owned(), (14.0f32).to_bits()),
        ]
    );
}

#[test]
fn value_cursor_walks_in_insertion_order() {
    let mut host = test_host();
    let mut list = ByondValue::new_list(&mut host).unwrap();
    for i in 1..=3 {
        list.push_list(&mut host, num(i as f32)).unwrap();
    }
    let mut cursor = list.values(&mut host).unwrap();
    let mut seen: Vec<u32> = Vec::new();
    while let Some(v) = cursor.next(&mut host) {
        seen.push(v.get_number().unwrap());
    }
    assert_eq!(
        seen,
        vec![(1.0f32).to_bits(), (2.0f32).to_bits(), (3.0f32).to_bits()]
    );
    assert!(matches!(
        ByondValue::null().values(&mut host),
        Err(Error::NotAList(_))
    ));
}

#[test]
fn pair_cursor_reports_null_for_plain_slots() {
    let mut host = test_host();
    let mut list = ByondValue::new_list(&mut host).unwrap();
    let cat = ByondValue::new_str(&mut host, &b"cat".to_vec()).unwrap();
    let dog = ByondValue::new_str(&mut host, &b"dog".to_vec()).unwrap();
    list.push_list(&mut host, cat).unwrap();
    list.push_list(&mut host, dog).unwrap();
    let mut pairs = list.iter(&mut host).unwrap();
    let mut names: Vec<String> = Vec::new();
    while let Some((k, v)) = pairs.next(&mut host) {
        assert!(v.is_null());
        names.push(k.get_string(&mut host).unwrap());
    }
    assert_eq!(names, vec!["cat".to_owned(), "dog".to_owned()]);
}
