use dirlist::entry::{get_entry, get_files, ChildProbe, EntryMetadata, EntryType, FileEntry};
use dirlist::report::{
    listing_output, not_found_message, read_error_message, resolve_path, PathCheck,
};
use dirlist::table::{header, render, row, table_rows};
use dirlist::text::{count_digits, digit, push_decimal, push_padded};
use dirlist::timestamp::{format_timestamp, modified_text, ModTime, UtcTime};

fn file_meta(len: u64, secs: i64) -> EntryMetadata {
    EntryMetadata { is_dir: false, len, modified: Some(ModTime { secs, nanos: 0 }) }
}

fn child(name: &str, metadata: Option<EntryMetadata>) -> Option<ChildProbe> {
    Some(ChildProbe { name: Some(name.to_string()), metadata })
}

#[test]
fn file_and_directory_give_two_rows() {
    let dir_meta = EntryMetadata {
        is_dir: true,
        len: 4096,
        modified: Some(ModTime { secs: 1704153600, nanos: 5 }),
    };
    let listing = vec![child("a.txt", Some(file_meta(10, 1704067200))), child("b", Some(dir_meta))];
    let records = get_files(Some(listing));
    assert_eq!(records.len(), 2);
    assert_eq!(records[0].name, "a.txt");
    assert_eq!(records[0].e_type, EntryType::File);
    assert_eq!(records[0].len, 10);
    assert_eq!(records[0].modified, "2024-01-01 00:00:00");
    assert_eq!(records[1].name, "b");
    assert_eq!(records[1].e_type, EntryType::Dir);
    assert_eq!(records[1].len, 4096);
    assert_eq!(records[1].modified, "2024-01-02 00:00:00");
    let rows = table_rows(&records);
    assert_eq!(rows.len(), 3);
    assert_eq!(rows[1], vec!["a.txt", "File", "10", "2024-01-01 00:00:00"]);
    assert_eq!(rows[2], vec!["b", "Dir", "4096", "2024-01-02 00:00:00"]);
    let drawn = render(&records);
    assert!(drawn.contains("a.txt"));
    assert!(drawn.contains("2024-01-01 00:00:00"));
    assert!(drawn.contains("Dir"));
}

#[test]
fn unreadable_metadata_is_skipped() {
    let listing = vec![
        child("x", Some(file_meta(1, 0))),
        child("locked", None),
        None,
        child("y", Some(file_meta(2, 0))),
    ];
    let records = get_files(Some(listing));
    assert_eq!(records.len(), 2);
    assert_eq!(records[0].name, "x");
    assert_eq!(records[1].name, "y");
}

#[test]
fn unreadable_directory_lists_nothing() {
    assert!(get_files(None).is_empty());
    assert!(get_files(Some(vec![])).is_empty());
}

#[test]
fn symlink_to_directory_is_a_directory() {
    let meta = EntryMetadata { is_dir: true, len: 7, modified: None };
    let records = get_files(Some(vec![child("link", Some(meta))]));
    assert_eq!(records[0].e_type, EntryType::Dir);
    assert_eq!(records[0].modified, "");
}

#[test]
fn name_that_is_not_text_gets_placeholder() {
    let mut data: Vec<FileEntry> = Vec::new();
    get_entry(None, Some(file_meta(3, 0)), &mut data);
    assert_eq!(data.len(), 1);
    assert_eq!(data[0].name, "<unknown file name>");
    assert_eq!(data[0].modified, "1970-01-01 00:00:00");
    get_entry(Some("gone".to_string()), None, &mut data);
    assert_eq!(data.len(), 1);
}

#[test]
fn modified_text_of_known_times() {
    assert_eq!(modified_text(Some(ModTime { secs: 1704067200, nanos: 0 })), "2024-01-01 00:00:00");
    assert_eq!(modified_text(Some(ModTime { secs: -1, nanos: 0 })), "1969-12-31 23:59:59");
    assert_eq!(
        modified_text(Some(ModTime { secs: 951825599, nanos: 999_999_999 })),
        "2000-02-29 11:59:59"
    );
    assert_eq!(modified_text(None), "");
    assert_eq!(modified_text(Some(ModTime { secs: i64::MAX, nanos: 0 })), "");
}

#[test]
fn timestamp_text_parses_back() {
    let t = UtcTime { year: 2024, month: 3, day: 9, hour: 7, minute: 5, second: 1 };
    let s = format_timestamp(&t);
    assert_eq!(s, "2024-03-09 07:05:01");
    assert_eq!(s.len(), 19);
    let back = UtcTime {
        year: s[0..4].parse().unwrap(),
        month: s[5..7].parse().unwrap(),
        day: s[8..10].parse().unwrap(),
        hour: s[11..13].parse().unwrap(),
        minute: s[14..16].parse().unwrap(),
        second: s[17..19].parse().unwrap(),
    };
    assert_eq!(back, t);
}

#[test]
fn years_outside_four_digits_carry_a_sign() {
    let far = UtcTime { year: 10000, month: 1, day: 1, hour: 0, minute: 0, second: 0 };
    assert_eq!(format_timestamp(&far), "+10000-01-01 00:00:00");
    let early = UtcTime { year: -1, month: 12, day: 31, hour: 23, minute: 59, second: 59 };
    assert_eq!(format_timestamp(&early), "-0001-12-31 23:59:59");
    let small = UtcTime { year: 7, month: 1, day: 2, hour: 3, minute: 4, second: 5 };
    assert_eq!(format_timestamp(&small), "0007-01-02 03:04:05");
}

#[test]
fn missing_path_prints_one_red_line() {
    let out = listing_output("no/such/dir", PathCheck::Missing, None);
    assert_eq!(out, "\u{1b}[31mpath 'no/such/dir' does not exixts\u{1b}[39m");
    assert_eq!(out.lines().count(), 1);
    assert!(!out.contains('╭'));
}

#[test]
fn failed_check_prints_error_line() {
    let out = listing_output("/root/x", PathCheck::Failed, None);
    assert_eq!(out, "\u{1b}[31merror reading path '/root/x'\u{1b}[39m");
    assert_eq!(read_error_message("p"), "error reading path 'p'");
    assert_eq!(not_found_message("p"), "path 'p' does not exixts");
}

#[test]
fn empty_directory_prints_header_only() {
    let out = listing_output(".", PathCheck::Present, Some(vec![]));
    assert_eq!(out, render(&Vec::new()));
    assert!(out.contains("Name"));
    assert!(out.contains("Type"));
    assert!(out.contains("Size"));
    assert!(out.contains("Modified"));
    assert!(!out.contains("exixts"));
    assert_eq!(out.lines().count(), 3);
    assert_eq!(table_rows(&Vec::new()), vec![header()]);
}

#[test]
fn table_is_rounded_and_colored() {
    let out = listing_output(".", PathCheck::Present, Some(vec![child("a", Some(file_meta(1, 0)))]));
    assert!(out.starts_with('╭'));
    assert!(out.contains("\u{1b}[92m"));
    assert!(out.contains("\u{1b}[96m"));
    assert!(out.contains("\u{1b}[95m"));
    assert!(out.contains("\u{1b}[93m"));
}

#[test]
fn no_argument_means_current_directory() {
    assert_eq!(resolve_path(None), ".");
    assert_eq!(resolve_path(None), resolve_path(Some(".".to_string())));
    assert_eq!(resolve_path(Some("/tmp".to_string())), "/tmp");
}

#[test]
fn labels_and_rows() {
    assert_eq!(EntryType::File.label(), "File");
    assert_eq!(EntryType::Dir.label(), "Dir");
    let e = FileEntry {
        name: "n".to_string(),
        e_type: EntryType::File,
        len: 1234567,
        modified: String::new(),
    };
    assert_eq!(row(&e), vec!["n", "File", "1234567", ""]);
    assert_eq!(header(), vec!["Name", "Type", "Size", "Modified"]);
}

#[test]
fn decimal_text() {
    let mut s = String::new();
    push_decimal(&mut s, 0);
    assert_eq!(s, "0");
    let mut s = String::new();
    push_decimal(&mut s, u64::MAX);
    assert_eq!(s, "18446744073709551615");
    let mut s = String::from("x");
    push_padded(&mut s, 42, 4);
    assert_eq!(s, "x0042");
    assert_eq!(count_digits(999), 3);
    assert_eq!(digit(7), '7');
}
