use byondapi::bridge::{arg_or_null, bridge_result};
use byondapi::byond_string::{str_id_of, StrIdCache};
use byondapi::error::Error;
use byondapi::global_call::call_global;
use byondapi::host::Host;
use byondapi::map::{byond_block, byond_locatein, byond_locateby, byond_locatexyz, byond_xyz, ByondXYZ};
use byondapi::parse_args;
use byondapi::value::{ByondValue, DATUM_TAG};

fn test_host() -> Host {
    Host::new(10, 10, 2)
}

fn num(f: f32) -> ByondValue {
    ByondValue::new_num(f.to_bits())
}

#[test]
fn absent_argument_array_behaves_like_an_empty_one() {
    let absent = parse_args(0, None);
    let empty = parse_args(0, Some(Vec::new()));
    assert_eq!(absent.len(), 0);
    assert_eq!(empty.len(), 0);
}

#[test]
fn missing_trailing_arguments_default_to_null() {
    let args = vec![num(1.0)];
    assert!(arg_or_null(&args, 0).eq(&num(1.0)));
    assert!(arg_or_null(&args, 1).is_null());
    assert!(arg_or_null(&args, 100).is_null());
}

#[test]
fn success_passes_straight_through_the_bridge() {
    let mut host = test_host();
    let out = bridge_result(&mut host, Ok(num(69.0)));
    assert!(out.eq(&num(69.0)));
    assert!(host.crash_message.is_none());
}

#[test]
fn failure_reaches_the_crash_path_exactly_once_with_everything_released() {
    let mut host = test_host();
    // An entry point acquires a guarded reference, fails, and releases what
    // it owns before its error reaches the bridge.
    let list = ByondValue::new_list(&mut host).unwrap();
    let baseline = list.get_refcount(&mut host).unwrap();
    let outcome: Result<ByondValue, Error> = {
        let guard = byondapi::value::refcounted::RcByondValue::new(&mut host, list);
        let _working_copy = guard.value();
        let _ = guard.release(&mut host);
        Err(Error::NotAList(ByondValue::null()))
    };
    assert_eq!(list.get_refcount(&mut host).unwrap(), baseline);
    assert!(host.crash_message.is_none());
    let out = bridge_result(&mut host, outcome);
    assert!(out.is_null());
    assert_eq!(host.crash_message.as_deref(), Some("value is not a list"));
}

#[test]
fn error_descriptions_are_fixed_text() {
    assert_eq!(Error::InvalidConversion.describe(), "cannot convert value to target type");
    assert_eq!(Error::NonUtf8String.describe(), "string is not utf8");
    assert_eq!(Error::UnknownByondError.describe(), "unknown internal host error");
    assert_eq!(
        Error::NotANum(ByondValue::null()).describe(),
        "value is not a number"
    );
    let host_side = Error::ByondError(byondapi::error::ByondError {
        message: "boom".to_owned(),
    });
    assert_eq!(host_side.describe(), "boom");
}

#[test]
fn last_error_reads_the_pending_message() {
    let host = test_host();
    assert!(matches!(
        Error::get_last_byond_error(&host),
        Error::UnknownByondError
    ));
}

#[test]
fn interning_is_idempotent() {
    let mut host = test_host();
    let v = ByondValue::new_str(&mut host, &b"get_name".to_vec()).unwrap();
    let id1 = str_id_of(&host, &b"get_name".to_vec()).unwrap();
    let id2 = str_id_of(&host, &b"get_name".to_vec()).unwrap();
    assert_eq!(id1, id2);
    assert_eq!(id1, v.data);
    let mut cache = StrIdCache::new();
    let c1 = cache.str_id_cached(&host, &b"get_name".to_vec()).unwrap();
    let c2 = cache.str_id_cached(&host, &b"get_name".to_vec()).unwrap();
    assert_eq!(c1, id1);
    assert_eq!(c2, id1);
}

#[test]
fn lookup_of_unknown_content_fails() {
    let host = test_host();
    match str_id_of(&host, &b"never interned".to_vec()) {
        Err(Error::NonExistentString(b)) => assert_eq!(b, b"never interned".to_vec()),
        other => panic!("expected the non-existent-string failure, got {:?}", other),
    }
}

#[test]
fn unknown_global_procs_are_invalid() {
    let mut host = test_host();
    assert!(matches!(
        call_global(&mut host, &b"get_name".to_vec(), &Vec::new()),
        Err(Error::InvalidProc(_))
    ));
}

#[test]
fn unknown_method_names_are_invalid_procs() {
    let mut host = test_host();
    let list = ByondValue::new_list(&mut host).unwrap();
    match list.call(&mut host, &b"Reverse".to_vec(), &Vec::new()) {
        Err(Error::InvalidProc(name)) => assert_eq!(name, b"Reverse".to_vec()),
        other => panic!("expected the invalid-proc failure, got {:?}", other),
    }
}

#[test]
fn variables_round_trip_through_an_object() {
    let mut host = test_host();
    let path = ByondValue::new_str(&mut host, &b"/datum/testobject".to_vec()).unwrap();
    let mut obj = ByondValue::builtin_new(&mut host, path, &Vec::new()).unwrap();
    assert_eq!(obj.get_type(), DATUM_TAG);
    // Interning the variable's name first mirrors the host defining it
    // when it compiled the type.
    let name_id = host.add_get_str_id(&b"name".to_vec());
    assert_ne!(name_id, byondapi::host::STR_ADD_FAILED);
    let name_value = ByondValue::new_str(&mut host, &b"meow".to_vec()).unwrap();
    obj.write_var(&mut host, &b"name".to_vec(), &name_value).unwrap();
    let back = obj.read_var(&mut host, &b"name".to_vec()).unwrap();
    assert!(back.eq(&name_value));
    assert_eq!(obj.read_string(&mut host, &b"name".to_vec()).unwrap(), "meow");
    let id = str_id_of(&host, &b"name".to_vec()).unwrap();
    let by_id = obj.read_var_id(&mut host, id).unwrap();
    assert!(by_id.eq(&name_value));
    assert!(matches!(
        num(1.0).read_var(&mut host, &b"name".to_vec()),
        Err(Error::NotReferencable(_))
    ));
    assert!(matches!(
        obj.read_var(&mut host, &b"absent".to_vec()),
        Err(Error::ByondError(_))
    ));
}

#[test]
fn locate_finds_objects_by_path() {
    let mut host = test_host();
    let path = ByondValue::new_str(&mut host, &b"/datum/testobject".to_vec()).unwrap();
    let obj = ByondValue::builtin_new(&mut host, path, &Vec::new()).unwrap();
    let mut container = ByondValue::new_list(&mut host).unwrap();
    container.push_list(&mut host, num(3.0)).unwrap();
    container.push_list(&mut host, obj).unwrap();
    let found = byond_locatein(&mut host, &path, &container).unwrap();
    assert!(found.eq(&obj));
    let found = byond_locateby(&mut host, &path).unwrap();
    assert!(found.eq(&obj));
    let other = ByondValue::new_str(&mut host, &b"/datum/missing".to_vec()).unwrap();
    assert!(byond_locateby(&mut host, &other).unwrap().is_null());
}

#[test]
fn block_returns_the_clamped_rectangle() {
    let mut host = test_host();
    let mut buf = byondapi::buffer::ScratchBuffer::new();
    let block = byond_block(
        &mut host,
        &mut buf,
        ByondXYZ::with_coords((1, 1, 1)),
        ByondXYZ::with_coords((2, 2, 1)),
    )
    .unwrap();
    assert_eq!(block.len(), 4);
    for turf in &block {
        let xyz = byond_xyz(&mut host, turf).unwrap();
        let (x, y, z) = xyz.coordinates();
        assert!((1..=2).contains(&x) && (1..=2).contains(&y) && z == 1);
    }
    // Corners beyond the world edge are clamped, not an error.
    let clamped = byond_block(
        &mut host,
        &mut buf,
        ByondXYZ::with_coords((9, 9, 1)),
        ByondXYZ::with_coords((99, 99, 1)),
    )
    .unwrap();
    assert_eq!(clamped.len(), 4);
}

#[test]
fn locate_by_coordinates() {
    let mut host = test_host();
    let turf = byond_locatexyz(&host, ByondXYZ::with_coords((3, 4, 2))).unwrap();
    let xyz = byond_xyz(&mut host, &turf).unwrap();
    assert_eq!(xyz.coordinates(), (3, 4, 2));
    let outside = byond_locatexyz(&host, ByondXYZ::with_coords((11, 1, 1))).unwrap();
    assert!(outside.is_null());
}
