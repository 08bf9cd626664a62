use sheil::sftp::{
    child_path, listing_entry, metadata_record, patch_content, written_content, read_buffer_len, SftpEntry,
    SftpError,
};
use sheil::sorting::sort_by_key;
use sheil::time::{civil_from_secs, iso8601_from_secs, mtime_to_iso8601, system_time_to_iso8601};
use std::time::{Duration, SystemTime, UNIX_EPOCH};

/// Whole seconds since the epoch, `None` before it, as the app hands them over.
fn since_epoch(t: SystemTime) -> Option<u64> {
    t.duration_since(UNIX_EPOCH).ok().map(|d| d.as_secs())
}

#[test]
fn error_sftp_to_string() {
    let err = SftpError::Sftp("permission denied".to_string());
    let s: String = err.message();
    assert!(s.contains("permission denied"));
}

#[test]
fn error_session_not_found_to_string() {
    let err = SftpError::SessionNotFound("abc123".to_string());
    let s: String = err.message();
    assert!(s.contains("abc123"));
}

#[test]
fn error_already_connected_to_string() {
    let err = SftpError::AlreadyConnected("abc123".to_string());
    let s: String = err.message();
    assert!(s.contains("abc123"));
}

#[test]
fn error_texts_exactly() {
    assert_eq!(SftpError::Io("gone".into()).message(), "I/O error: gone");
    assert_eq!(
        SftpError::SessionNotFound("s".into()).message(),
        "SFTP session not found for SSH session: s"
    );
}

#[test]
fn test_unix_epoch() {
    assert_eq!(system_time_to_iso8601(since_epoch(UNIX_EPOCH)), "1970-01-01T00:00:00Z");
}

#[test]
fn test_known_date() {
    let t = UNIX_EPOCH + Duration::from_secs(1_705_314_600);
    assert_eq!(system_time_to_iso8601(since_epoch(t)), "2024-01-15T10:30:00Z");
}

#[test]
fn test_leap_day() {
    let t = UNIX_EPOCH + Duration::from_secs(1_709_208_000);
    assert_eq!(system_time_to_iso8601(since_epoch(t)), "2024-02-29T12:00:00Z");
}

#[test]
fn test_pre_epoch_fallback() {
    let t = UNIX_EPOCH - Duration::from_secs(3600);
    assert_eq!(system_time_to_iso8601(since_epoch(t)), "1970-01-01T00:00:00Z");
}

#[test]
fn test_mtime_to_iso8601_some() {
    let result = mtime_to_iso8601(Some(1_705_314_600));
    assert_eq!(result, Some("2024-01-15T10:30:00Z".to_string()));
}

#[test]
fn test_mtime_to_iso8601_none() {
    assert_eq!(mtime_to_iso8601(None), None);
}

#[test]
fn test_year_boundary() {
    let t = UNIX_EPOCH + Duration::from_secs(1_704_067_199);
    assert_eq!(system_time_to_iso8601(since_epoch(t)), "2023-12-31T23:59:59Z");
}

#[test]
fn test_month_boundary() {
    let t = UNIX_EPOCH + Duration::from_secs(1_706_745_600);
    assert_eq!(system_time_to_iso8601(since_epoch(t)), "2024-02-01T00:00:00Z");
}

#[test]
fn test_epoch_plus_one_second() {
    let t = UNIX_EPOCH + Duration::from_secs(1);
    assert_eq!(system_time_to_iso8601(since_epoch(t)), "1970-01-01T00:00:01Z");
}

#[test]
fn civil_dates_around_leap_years() {
    assert_eq!(civil_from_secs(951_782_400), (2000, 2, 29, 0, 0, 0));
    assert_eq!(iso8601_from_secs(4_107_542_399), "2100-02-28T23:59:59Z");
    assert_eq!(iso8601_from_secs(4_107_542_400), "2100-03-01T00:00:00Z");
    assert_eq!(iso8601_from_secs(253_402_300_799), "9999-12-31T23:59:59Z");
    assert_eq!(iso8601_from_secs(253_402_300_800), "10000-01-01T00:00:00Z");
}

#[test]
fn child_paths() {
    assert_eq!(child_path("/home/user/", "a.txt"), "/home/user/a.txt");
    assert_eq!(child_path("/", "etc"), "/etc");
    assert_eq!(child_path("dir//", "x"), "dir/x");
}

fn entry(name: &str, is_dir: bool) -> SftpEntry {
    listing_entry("/d", name.to_string(), is_dir, false, 1, None, Some(0o644))
}

#[test]
fn listing_puts_directories_first_then_names_case_insensitively() {
    let entries = vec![entry("b.txt", false), entry("Zeta", true), entry("A.txt", false), entry("alpha", true)];
    let sorted = sort_by_key(entries);
    let names: Vec<&str> = sorted.iter().map(|e| e.name.as_str()).collect();
    assert_eq!(names, vec!["alpha", "Zeta", "A.txt", "b.txt"]);
    assert_eq!(sorted[0].path, "/d/alpha");
    assert_eq!(sorted[0].permissions, 0o644);
}

#[test]
fn records_read_missing_values_as_defaults() {
    let e = listing_entry("/x/", "f".to_string(), false, true, 9, Some(0), None);
    assert_eq!(e.modified.as_deref(), Some("1970-01-01T00:00:00Z"));
    assert_eq!(e.permissions, 0);
    let m = metadata_record(true, false, 4096, None, Some(1), None, Some(1000), None);
    assert_eq!(m.modified, None);
    assert_eq!(m.accessed.as_deref(), Some("1970-01-01T00:00:01Z"));
    assert_eq!((m.owner, m.group), (Some(1000), None));
}

#[test]
fn offset_writes_patch_the_file() {
    assert_eq!(patch_content(b"hello world", b"HELLO", 0), b"HELLO world".to_vec());
    assert_eq!(patch_content(b"ab", b"cd", 4), vec![b'a', b'b', 0, 0, b'c', b'd']);
    assert_eq!(patch_content(b"abcdef", b"X", 2), b"abXdef".to_vec());
    assert_eq!(read_buffer_len(10), 10);
}

#[test]
fn one_text_per_timestamp() {
    // The same second always renders the same text, whichever function renders it.
    let t = 1_709_208_000u64;
    let a = iso8601_from_secs(t);
    let b = system_time_to_iso8601(since_epoch(UNIX_EPOCH + Duration::from_secs(t)));
    let c = mtime_to_iso8601(Some(t as u32)).unwrap();
    assert_eq!(a, b);
    assert_eq!(a, c);
}

#[test]
fn tied_names_keep_their_listing_order() {
    let entries = vec![entry("b", false), entry("README", false), entry("a", false), entry("readme", false)];
    let sorted = sort_by_key(entries);
    let names: Vec<&str> = sorted.iter().map(|e| e.name.as_str()).collect();
    assert_eq!(names, vec!["a", "b", "README", "readme"]);
    let entries = vec![entry("readme", false), entry("README", false)];
    let names: Vec<String> = sort_by_key(entries).into_iter().map(|e| e.name).collect();
    assert_eq!(names, vec!["readme".to_string(), "README".to_string()]);
}

#[test]
fn writes_at_offset_zero_replace_the_file() {
    assert_eq!(written_content(b"hello world", b"HELLO", 0), b"HELLO".to_vec());
    assert_eq!(written_content(b"hello world", b"HELLO", 6), b"hello HELLO".to_vec());
    assert_eq!(written_content(b"ab", b"cd", 3), vec![b'a', b'b', 0, b'c', b'd']);
}
