use process_lib::ident::{
    split_on, text_matches_process, Address, AddressParseError, PackageId, ProcessId,
    ProcessIdParseError,
};

#[test]
fn package_id_formats_and_parses() {
    let p = PackageId::new("app", "alice");
    assert_eq!(p.to_string(), "app:alice");
    let q = PackageId::from_str("app:alice").unwrap();
    assert_eq!(q.package(), "app");
    assert_eq!(q.publisher_node(), "alice");
}

#[test]
fn package_id_parse_errors() {
    assert!(matches!(PackageId::from_str("app"), Err(ProcessIdParseError::MissingField)));
    assert!(matches!(PackageId::from_str(""), Err(ProcessIdParseError::MissingField)));
    assert!(matches!(
        PackageId::from_str("app:alice:extra"),
        Err(ProcessIdParseError::TooManyColons)
    ));
}

#[test]
fn process_id_parses_three_fields() {
    let p = ProcessId::from_str("vfs:sys:uqbar").unwrap();
    assert_eq!(p.process(), "vfs");
    assert_eq!(p.package(), "sys");
    assert_eq!(p.publisher_node(), "uqbar");
    assert_eq!(p.to_string(), "vfs:sys:uqbar");
}

#[test]
fn process_id_with_two_segments_is_missing_a_field() {
    assert_eq!(ProcessId::from_str("vfs:sys").unwrap_err(), ProcessIdParseError::MissingField);
}

#[test]
fn process_id_with_extra_colon_has_too_many() {
    assert_eq!(
        ProcessId::from_str("vfs:sys:uqbar:x").unwrap_err(),
        ProcessIdParseError::TooManyColons
    );
}

#[test]
fn process_id_keeps_empty_fields() {
    let p = ProcessId::from_str("::").unwrap();
    assert_eq!(p.process(), "");
    assert_eq!(p.package(), "");
    assert_eq!(p.publisher_node(), "");
}

#[test]
fn address_parses_node_and_process() {
    let a = Address::from_str("node1@vfs:sys:uqbar").unwrap();
    assert_eq!(a.node, "node1");
    assert_eq!(a.process, ProcessId::new("vfs", "sys", "uqbar"));
    assert_eq!(a.to_string(), "node1@vfs:sys:uqbar");
}

#[test]
fn address_without_at_is_missing_node() {
    assert_eq!(Address::from_str("vfs:sys:uqbar").unwrap_err(), AddressParseError::MissingNodeId);
}

#[test]
fn address_with_two_process_segments_is_missing_a_field() {
    assert_eq!(Address::from_str("node1@vfs:sys").unwrap_err(), AddressParseError::MissingField);
}

#[test]
fn address_with_extra_colon_has_too_many() {
    assert_eq!(
        Address::from_str("node1@vfs:sys:uqbar:x").unwrap_err(),
        AddressParseError::TooManyColons
    );
}

#[test]
fn address_with_second_at_has_too_many_delimiters() {
    assert_eq!(Address::from_str("n@a:b:c@x").unwrap_err(), AddressParseError::TooManyColons);
    assert_eq!(Address::from_str("n@@a:b:c").unwrap_err(), AddressParseError::TooManyColons);
}

#[test]
fn address_from_node_and_process_text() {
    let a = Address::new("our", "vfs:sys:uqbar").unwrap();
    assert_eq!(a.to_string(), "our@vfs:sys:uqbar");
    assert_eq!(Address::new("our", "vfs").unwrap_err(), ProcessIdParseError::MissingField);
    let b = Address::new("our", ProcessId::new("vfs", "sys", "uqbar")).unwrap();
    assert_eq!(a, b);
}

#[test]
fn round_trip_of_identities() {
    let a = Address::new("node-7", ProcessId::new("chess", "games", "bob.uq")).unwrap();
    let back = Address::from_str(&a.to_string()).unwrap();
    assert_eq!(back, a);
    let p = ProcessId::new("proc", "pkg", "pub");
    assert_eq!(ProcessId::from_str(&p.to_string()).unwrap(), p);
    let k = PackageId::new("pkg", "pub");
    let kb = PackageId::from_str(&k.to_string()).unwrap();
    assert_eq!((kb.package(), kb.publisher_node()), ("pkg", "pub"));
}

#[test]
fn field_with_delimiter_does_not_round_trip() {
    let p = ProcessId::new("a:b", "c", "d");
    assert_eq!(p.to_string(), "a:b:c:d");
    assert_eq!(ProcessId::from_str(&p.to_string()).unwrap_err(), ProcessIdParseError::TooManyColons);
}

#[test]
fn text_equality_is_symmetric() {
    let p = ProcessId::new("vfs", "sys", "uqbar");
    for s in ["vfs:sys:uqbar", "vfs:sys:uqbar ", "vfs:sys", "", "VFS:sys:uqbar"] {
        assert_eq!(p.eq_str(s), text_matches_process(s, &p));
    }
    assert!(p.eq_str("vfs:sys:uqbar"));
    assert!(!p.eq_str("vfs:sys:uqbar "));
}

#[test]
fn formatting_twice_is_identical() {
    let a = Address::new("n", ProcessId::new("p", "k", "z")).unwrap();
    assert_eq!(a.to_string(), a.to_string());
    assert_eq!(a.process.to_string(), a.process.to_string());
    let k = PackageId::new("k", "z");
    assert_eq!(k.to_string(), k.to_string());
}

#[test]
fn split_yields_fields_between_delimiters() {
    assert_eq!(split_on("a::b", ':'), vec!["a".to_string(), String::new(), "b".to_string()]);
    assert_eq!(split_on("", ':'), vec![String::new()]);
    assert_eq!(split_on("é:ü", ':'), vec!["é".to_string(), "ü".to_string()]);
}

#[test]
fn equality_of_addresses_is_by_fields() {
    let a = Address::from_str("n@a:b:c").unwrap();
    assert_eq!(a.duplicate(), a);
    assert_ne!(Address::from_str("m@a:b:c").unwrap(), a);
}
