use mvs_sdk_rs::{sdk_bytes_from_cstr_array, MvsError, SdkText};

#[test]
fn text_preserves_bytes_and_rejects_nul() {
    let text = SdkText::from_sdk_bytes(vec![0x66, 0x80, 0x6F]);
    assert_eq!(text.as_bytes(), &[0x66, 0x80, 0x6F]);
    assert!(text.to_str().is_err());
    assert!(matches!(SdkText::new(b"a\0b"), Err(MvsError::Nul(_))));
}

#[test]
fn text_decodes_only_on_request() {
    let text = SdkText::new("曝光".as_bytes()).unwrap();
    assert_eq!(text.to_str().unwrap(), "曝光");
    assert_eq!(text.to_string_lossy(), "曝光");
    assert_eq!(text.len(), 6);
    let odd = SdkText::from_sdk_bytes(vec![0x66, 0x80, 0x6F]);
    assert_eq!(odd.to_string_lossy(), "f\u{FFFD}o");
    assert!(odd.clone() == odd);
    assert_eq!(odd.into_bytes(), [0x66, 0x80, 0x6F]);
}

#[test]
fn fixed_fields_end_at_the_first_nul() {
    assert_eq!(sdk_bytes_from_cstr_array(b"abc\0def\0"), b"abc");
    assert_eq!(sdk_bytes_from_cstr_array(b"\0abc"), b"");
    assert_eq!(sdk_bytes_from_cstr_array(b"abc"), b"abc");
    assert_eq!(sdk_bytes_from_cstr_array(b""), b"");
}

#[test]
fn nul_error_reports_the_first_nul() {
    let Err(MvsError::Nul(error)) = SdkText::try_from("ab\0c\0") else {
        panic!("an interior NUL must be refused");
    };
    assert_eq!(error.nul_position(), 2);
    assert_eq!(
        error.message(),
        "nul byte found in provided data at position: 2"
    );
    assert_eq!(error.into_vec(), b"ab\0c\0");
}

#[test]
fn text_survives_the_way_through_a_c_string() {
    let text = SdkText::try_from(&b"name"[..]).unwrap();
    let mut field = text.as_bytes().to_vec();
    field.resize(32, 0);
    assert_eq!(sdk_bytes_from_cstr_array(&field), text.as_bytes());
    assert!(SdkText::default().is_empty());
    assert!(!text.is_empty());
    assert_eq!(text.as_ref(), b"name");
}

#[test]
fn cutting_twice_cuts_once() {
    let once = sdk_bytes_from_cstr_array(b"ab\0cd\0");
    assert_eq!(sdk_bytes_from_cstr_array(&once), once);
}

#[test]
fn text_diagnostics_are_exact() {
    let text = SdkText::new(b"A\"\x80").ok().unwrap();
    assert_eq!(
        text.debug_text(),
        "SdkText { bytes: [65, 34, 128], lossy: \"A\\\"\u{FFFD}\" }"
    );
    assert_eq!(
        SdkText::default().debug_text(),
        "SdkText { bytes: [], lossy: \"\" }"
    );
}

#[test]
fn nul_errors_become_errors_of_the_library() {
    let Err(MvsError::Nul(nul)) = SdkText::new(b"a\0b") else {
        panic!("an interior NUL must be refused");
    };
    assert_eq!(format!("{nul:?}"), "NulError(1, [97, 0, 98])");
    let error = MvsError::from(nul);
    assert!(matches!(&error, MvsError::Nul(nul) if nul.nul_position() == 1));
    assert_eq!(error.raw_code(), None);
}
