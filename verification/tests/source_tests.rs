use file_source::parse::TextValue;
use file_source::source::FileRead;
use file_source::source::FileSource;
use file_source::source::RefreshFileSourceError;
use file_source::source::ValueError;
use file_source::source::ValueSource;

#[test]
fn simple_required() {
    let mut source: FileSource<String, true> =
        FileSource::from_path("sources/test-required".to_string());

    let read = FileRead::Content("hello world!".to_string());
    assert_eq!(source.value(read, 0).unwrap(), "hello world!");
}

#[test]
fn simple_optional_given() {
    let mut source: FileSource<String, false> =
        FileSource::from_path("sources/test-optional".to_string());

    let read = FileRead::Content("hello optional world!".to_string());
    assert_eq!(
        source.value(read, 0).unwrap(),
        Some("hello optional world!".to_owned())
    );
}

#[test]
fn simple_optional_missing() {
    let mut source: FileSource<String, false> =
        FileSource::from_path("sources/test-optional-missing".to_string());

    assert_eq!(source.value(FileRead::Missing, 0).unwrap(), None);
}

#[test]
fn timeout_refresh() {
    let mut source: FileSource<String, false> =
        FileSource::from_path("sources/refresh-overwrite".to_string());
    source.set_refresh_interval(Some(5));
    let first = FileRead::Content("first".to_string());
    assert_eq!(source.value(first, 0).unwrap(), Some("first".to_owned()));
    let second = FileRead::Content("second".to_string());
    assert_eq!(source.value(second, 6).unwrap(), Some("second".to_owned()));
}

#[test]
fn stale_value_kept_within_interval() {
    let mut source: FileSource<String, false> =
        FileSource::from_path("sources/refresh-overwrite".to_string());
    source.set_refresh_interval(Some(5));
    let first = FileRead::Content("first".to_string());
    assert_eq!(source.value(first, 0).unwrap(), Some("first".to_owned()));
    // The file already holds new contents, but the interval has not elapsed.
    let second_early = FileRead::Content("second".to_string());
    assert_eq!(
        source.value(second_early, 3).unwrap(),
        Some("first".to_owned())
    );
    // Strictly after the interval the new contents are reflected.
    let second_late = FileRead::Content("second".to_string());
    assert_eq!(
        source.value(second_late, 6).unwrap(),
        Some("second".to_owned())
    );
}

#[test]
fn interval_boundary_is_strict() {
    let mut source: FileSource<String, true> =
        FileSource::from_path("sources/boundary".to_string());
    source.set_refresh_interval(Some(5));
    let first = FileRead::Content("first".to_string());
    assert_eq!(source.value(first, 10).unwrap(), "first");
    // At exactly last refresh + interval the source is still fresh.
    assert!(!source.should_refresh(15));
    let second = FileRead::Content("second".to_string());
    assert_eq!(source.value(second, 15).unwrap(), "first");
    // One tick later it is stale.
    assert!(source.should_refresh(16));
}

#[test]
fn no_interval_cache_is_sticky() {
    let mut source: FileSource<String, true> =
        FileSource::from_path("sources/sticky".to_string());
    let first = FileRead::Content("first".to_string());
    assert_eq!(source.value(first, 0).unwrap(), "first");
    // Without a refresh interval no later access ever re-reads.
    let second = FileRead::Content("second".to_string());
    assert_eq!(source.value(second, u64::MAX).unwrap(), "first");
    assert!(!source.should_refresh(u64::MAX));
}

#[test]
fn required_missing_fails_and_recurs() {
    let mut source: FileSource<String, true> =
        FileSource::from_path("sources/never-there".to_string());
    for now in [0, 1, 100] {
        let r = source.value(FileRead::Missing, now);
        assert!(matches!(
            r,
            Err(ValueError::RefreshFileSourceError(
                RefreshFileSourceError::NoValue
            ))
        ));
    }
}

#[test]
fn failed_read_is_io_error() {
    let mut source: FileSource<String, true> =
        FileSource::from_path("sources/unreadable".to_string());
    let r = source.value(FileRead::Failed("permission denied".to_string()), 0);
    match r {
        Err(ValueError::RefreshFileSourceError(RefreshFileSourceError::IOError(msg))) => {
            assert_eq!(msg, "permission denied");
        }
        _ => panic!("expected an IOError"),
    }
}

#[test]
fn parse_failure_is_typed_and_leaves_cache() {
    let mut source: FileSource<bool, true> = FileSource::from_path("sources/flag".to_string());
    source.set_refresh_interval(Some(5));
    assert_eq!(source.value(FileRead::Content("true".to_string()), 0).unwrap(), true);
    // Garbage after the interval: the parse error surfaces, the cache stays.
    let r = source.value(FileRead::Content("maybe".to_string()), 10);
    assert!(matches!(
        r,
        Err(ValueError::RefreshFileSourceError(
            RefreshFileSourceError::ParseError(())
        ))
    ));
    // The old value is still served once the source is fresh again.
    assert_eq!(source.value(FileRead::Content("false".to_string()), 11).unwrap(), false);
}

#[test]
fn trimming_on_strips_whitespace() {
    let mut trimmed: FileSource<String, true> =
        FileSource::from_path("sources/trimmed".to_string());
    assert_eq!(
        trimmed.value(FileRead::Content("  value\n".to_string()), 0).unwrap(),
        "value"
    );
    let mut plain: FileSource<String, true> =
        FileSource::from_path("sources/plain".to_string());
    assert_eq!(
        plain.value(FileRead::Content("value".to_string()), 0).unwrap(),
        "value"
    );
}

#[test]
fn trimming_off_keeps_contents_verbatim() {
    let mut source: FileSource<String, true> =
        FileSource::from_path("sources/verbatim".to_string());
    source.set_auto_trim(false);
    assert_eq!(
        source.value(FileRead::Content("  value\n".to_string()), 0).unwrap(),
        "  value\n"
    );
}

#[test]
fn bool_values_parse_and_trim() {
    let mut source: FileSource<bool, false> = FileSource::from_path("sources/flag".to_string());
    assert_eq!(
        source.value(FileRead::Content(" true\n".to_string()), 0).unwrap(),
        Some(true)
    );
    let mut off: FileSource<bool, false> = FileSource::from_path("sources/flag2".to_string());
    assert_eq!(
        off.value(FileRead::Content("false".to_string()), 0).unwrap(),
        Some(false)
    );
}

#[test]
fn optional_missing_after_value_caches_absence() {
    let mut source: FileSource<String, false> =
        FileSource::from_path("sources/comes-and-goes".to_string());
    source.set_refresh_interval(Some(2));
    assert_eq!(
        source.value(FileRead::Content("here".to_string()), 0).unwrap(),
        Some("here".to_owned())
    );
    // The file vanished and the interval elapsed: absence is cached.
    assert_eq!(source.value(FileRead::Missing, 5).unwrap(), None);
    // Still fresh: the cached absence is served without an error.
    assert_eq!(source.value(FileRead::Missing, 6).unwrap(), None);
}

#[test]
fn refresh_value_rereads_unconditionally() {
    let mut source: FileSource<String, true> =
        FileSource::from_path("sources/forced".to_string());
    assert_eq!(source.value(FileRead::Content("first".to_string()), 0).unwrap(), "first");
    // No interval is set, so value() would keep "first"; a direct refresh
    // re-reads all the same.
    source
        .refresh_value(FileRead::Content("second".to_string()), 1)
        .unwrap();
    assert_eq!(source.value(FileRead::Missing, 2).unwrap(), "second");
}

#[test]
fn builder_chaining_configures_the_source() {
    let mut source: FileSource<String, true> =
        FileSource::from_path("sources/chained".to_string());
    source.set_refresh_interval(Some(7)).set_auto_trim(false);
    assert_eq!(
        source.value(FileRead::Content(" x ".to_string()), 0).unwrap(),
        " x "
    );
    assert!(!source.should_refresh(7));
    assert!(source.should_refresh(8));
}

#[test]
fn filepath_is_kept() {
    let source: FileSource<String, true> =
        FileSource::from_path("sources/somewhere".to_string());
    assert_eq!(source.filepath(), "sources/somewhere");
}

#[test]
fn numeric_values_parse_exactly() {
    let mut port: FileSource<u64, true> = FileSource::from_path("sources/port".to_string());
    assert_eq!(port.value(FileRead::Content("8080".to_string()), 0).unwrap(), 8080);
    let mut count: FileSource<u64, true> = FileSource::from_path("sources/count".to_string());
    assert_eq!(count.value(FileRead::Content(" 42\n".to_string()), 0).unwrap(), 42);
}

#[test]
fn numeric_parse_edges() {
    assert_eq!(<u64 as TextValue>::parse_text("0"), Ok(0));
    assert_eq!(<u64 as TextValue>::parse_text("018"), Ok(18));
    assert_eq!(
        <u64 as TextValue>::parse_text("18446744073709551615"),
        Ok(u64::MAX)
    );
    // One past the largest value overflows and is a parse failure.
    assert_eq!(<u64 as TextValue>::parse_text("18446744073709551616"), Err(()));
    assert_eq!(<u64 as TextValue>::parse_text("99999999999999999999"), Err(()));
    assert_eq!(<u64 as TextValue>::parse_text("12x"), Err(()));
    assert_eq!(<u64 as TextValue>::parse_text("-1"), Err(()));
    assert_eq!(<u64 as TextValue>::parse_text(""), Err(()));
    // Fullwidth digits are not decimal digits.
    assert_eq!(<u64 as TextValue>::parse_text("\u{ff14}\u{ff12}"), Err(()));
}

#[test]
fn parse_text_directly() {
    assert_eq!(<String as TextValue>::parse_text("raw text"), Ok("raw text".to_string()));
    assert_eq!(<bool as TextValue>::parse_text("true"), Ok(true));
    assert_eq!(<bool as TextValue>::parse_text("false"), Ok(false));
    assert_eq!(<bool as TextValue>::parse_text("neither"), Err(()));
    // An empty text is not special-cased: the parser decides.
    assert_eq!(<String as TextValue>::parse_text(""), Ok(String::new()));
    assert_eq!(<bool as TextValue>::parse_text(""), Err(()));
}
