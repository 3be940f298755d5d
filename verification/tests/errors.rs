use shared_lib::{path_text, LibPath, Platform, SharedLibError};

#[test]
fn path_empty_message() {
    assert_eq!(SharedLibError::PathEmpty.to_string(), "Path is empty.");
}

#[test]
fn path_conversion_message() {
    let error = SharedLibError::PathConversion("some/dir".into(), "OsString".into());
    assert_eq!(error.to_string(), "Failed to convert path 'some/dir' to OsString.");
}

#[test]
fn load_failure_message() {
    let error = SharedLibError::LoadFailure {
        path: "libnon_existent.so".into(),
        msg: "cannot open shared object file".into(),
    };
    assert_eq!(
        error.to_string(),
        "Failed to load library from path 'libnon_existent.so'. cannot open shared object file"
    );
}

#[test]
fn symbol_not_found_message() {
    let error = SharedLibError::SymbolNotFound {
        symbol_name: "non_existent".into(),
        lib_name: "libcalculator.so".into(),
        msg: "undefined symbol: non_existent".into(),
    };
    assert_eq!(
        error.to_string(),
        "Failed to find symbol 'non_existent' in library 'libcalculator.so'. undefined symbol: non_existent"
    );
}

#[test]
fn messages_with_empty_fields() {
    let error = SharedLibError::PathConversion("".into(), "".into());
    assert_eq!(error.to_string(), "Failed to convert path '' to .");
    let error = SharedLibError::LoadFailure { path: "".into(), msg: "".into() };
    assert_eq!(error.to_string(), "Failed to load library from path ''. ");
    let error = SharedLibError::SymbolNotFound {
        symbol_name: "".into(),
        lib_name: "".into(),
        msg: "".into(),
    };
    assert_eq!(error.to_string(), "Failed to find symbol '' in library ''. ");
}

#[test]
fn load_failure_carries_path_and_diagnostic() {
    let lib_path = LibPath::new("test_dir".into(), "non_existent".into());
    let error = lib_path.load_failure("no such file".into());
    assert_eq!(
        error,
        SharedLibError::LoadFailure {
            path: Platform::host().library_path("test_dir", "non_existent").unwrap(),
            msg: "no such file".into(),
        }
    );
}

#[test]
fn load_failure_of_a_nameless_library_is_path_empty() {
    let lib_path = LibPath::new("test_dir".into(), "".into());
    assert_eq!(lib_path.load_failure("no such file".into()), SharedLibError::PathEmpty);
}

#[test]
fn symbol_not_found_carries_symbol_path_and_diagnostic() {
    let lib_path = LibPath::new_no_path("calculator".into());
    let error = lib_path.symbol_not_found("non_existent", "undefined symbol".into());
    assert_eq!(
        error,
        SharedLibError::SymbolNotFound {
            symbol_name: "non_existent".into(),
            lib_name: Platform::host().library_filename("calculator").unwrap(),
            msg: "undefined symbol".into(),
        }
    );
}

#[test]
fn symbol_not_found_of_a_nameless_library_is_path_empty() {
    let lib_path = LibPath::new_no_path("".into());
    assert_eq!(
        lib_path.symbol_not_found("add", "undefined symbol".into()),
        SharedLibError::PathEmpty
    );
}

#[test]
fn path_text_reads_utf8() {
    assert_eq!(path_text(b"test_dir"), Ok("test_dir".to_string()));
    assert_eq!(path_text(b""), Ok("".to_string()));
    assert_eq!(path_text(b"/usr/local/lib"), Ok("/usr/local/lib".to_string()));
    assert_eq!(path_text("z\u{e4}hler/\u{1F600}".as_bytes()), Ok("z\u{e4}hler/\u{1F600}".to_string()));
    assert_eq!(path_text(&[0x7a, 0xc3, 0xa4]), Ok("z\u{e4}".to_string()));
}

#[test]
fn path_text_refuses_what_is_no_utf8() {
    assert_eq!(
        path_text(&[0x66, 0x6f, 0x80]),
        Err(SharedLibError::PathConversion("fo\u{fffd}".into(), "String".into()))
    );
    assert_eq!(
        path_text(&[0xff, 0x2f, 0x61]),
        Err(SharedLibError::PathConversion("\u{fffd}/a".into(), "String".into()))
    );
    assert_eq!(
        path_text(&[0xc0, 0x80]),
        Err(SharedLibError::PathConversion("\u{fffd}\u{fffd}".into(), "String".into()))
    );
    assert_eq!(
        path_text(&[0xed, 0xa0, 0x80]),
        Err(SharedLibError::PathConversion("\u{fffd}\u{fffd}\u{fffd}".into(), "String".into()))
    );
    assert_eq!(
        path_text(&[0x61, 0xe2, 0x82]),
        Err(SharedLibError::PathConversion("a\u{fffd}".into(), "String".into()))
    );
}

#[test]
fn refused_path_is_reported_as_a_sentence() {
    let error = path_text(&[0x66, 0x6f, 0x80]).unwrap_err();
    assert_eq!(error.to_string(), "Failed to convert path 'fo\u{fffd}' to String.");
}

#[test]
fn path_text_feeds_a_lib_path() {
    let lib_path = LibPath::new(path_text(b"test_dir").unwrap(), "test_name".into());
    assert_eq!(
        lib_path.path(),
        Platform::host().library_path("test_dir", "test_name")
    );
}
