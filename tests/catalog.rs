use video_catalog::catalog::{format_duration, format_file_size, generate_id, AppState, SortOption, ViewMode};
use video_catalog::fingerprint::{fingerprint, hex_encode};

#[test]
fn file_size_below_a_kilobyte_is_in_bytes() {
    assert_eq!(format_file_size(0), "0 B");
    assert_eq!(format_file_size(512), "512 B");
    assert_eq!(format_file_size(1023), "1023 B");
}

#[test]
fn file_size_uses_largest_unit_reached() {
    assert_eq!(format_file_size(1024), "1.0 KB");
    assert_eq!(format_file_size(1536), "1.5 KB");
    assert_eq!(format_file_size(1_048_576), "1.0 MB");
    assert_eq!(format_file_size(2_621_440), "2.5 MB");
    assert_eq!(format_file_size(5 * 1_073_741_824), "5.0 GB");
    assert_eq!(format_file_size(1_181_116_006), "1.1 GB");
}

#[test]
fn file_size_rounds_to_one_decimal() {
    assert_eq!(format_file_size(1280), "1.2 KB");
    assert_eq!(format_file_size(1_048_575), "1024.0 KB");
    assert_eq!(format_file_size(u64::MAX), "17179869184.0 GB");
}

#[test]
fn file_size_matches_float_formatting() {
    for bytes in [1_000u64, 1_100, 2_047, 10_000, 123_456, 999_999, 5_000_000, 77_777_777, 3_000_000_000] {
        let expected = if bytes >= 1 << 30 {
            format!("{:.1} GB", bytes as f64 / (1u64 << 30) as f64)
        } else if bytes >= 1 << 20 {
            format!("{:.1} MB", bytes as f64 / (1u64 << 20) as f64)
        } else if bytes >= 1 << 10 {
            format!("{:.1} KB", bytes as f64 / (1u64 << 10) as f64)
        } else {
            format!("{} B", bytes)
        };
        assert_eq!(format_file_size(bytes), expected);
    }
}

#[test]
fn duration_text_below_an_hour() {
    assert_eq!(format_duration(0), "0:00");
    assert_eq!(format_duration(59_900_000), "0:59");
    assert_eq!(format_duration(125_000_000), "2:05");
    assert_eq!(format_duration(-3_000_000), "0:00");
}

#[test]
fn duration_text_from_an_hour() {
    assert_eq!(format_duration(3_600_000_000), "1:00:00");
    assert_eq!(format_duration(3_661_000_000), "1:01:01");
    assert_eq!(format_duration(36_000_000_000 + 59 * 60_000_000), "10:59:00");
}

#[test]
fn defaults_of_view_state() {
    assert_eq!(SortOption::default(), SortOption::DateNewest);
    assert_eq!(ViewMode::default(), ViewMode::AllVideos);
    assert_ne!(AppState::Scanning, AppState::Browsing);
    assert_eq!(AppState::Error("x".to_string()), AppState::Error("x".to_string()));
}

fn rolling_id(s: &str) -> String {
    let mut hash: i64 = 0;
    for c in s.chars() {
        hash = ((hash << 5).wrapping_sub(hash)).wrapping_add(c as i64);
    }
    format!("{:x}", hash.unsigned_abs())
}

#[test]
fn generate_id_is_rolling_hash_in_hex() {
    assert_eq!(generate_id(""), "0");
    assert_eq!(generate_id("a"), "61");
    assert_eq!(generate_id("ab"), "c21");
    let long = "/Users/someone/Movies/holiday 2023/clip_0001.mov";
    assert_eq!(generate_id(long), rolling_id(long));
    let wide = "/vidéos/été/日本.mp4";
    assert_eq!(generate_id(wide), rolling_id(wide));
}

#[test]
fn hex_encode_writes_two_digits_per_byte() {
    assert_eq!(hex_encode(&[]), "");
    assert_eq!(hex_encode(&[0x00, 0x0f, 0xa0, 0xff]), "000fa0ff");
}

#[test]
fn fingerprint_digests_head_size_and_time() {
    // MD5 of the single character "0".
    assert_eq!(fingerprint(&[], 0, ""), "cfcd208495d565ef66e7dff9f98764da");
    // MD5 of "1".
    assert_eq!(fingerprint(&[], 1, ""), "c4ca4238a0b923820dcc509a6f75849b");
    let message = b"header42SystemTime { tv_sec: 1, tv_nsec: 2 }";
    let digest = <md5::Md5 as md5::Digest>::digest(message);
    let expected: String = digest.iter().map(|b| format!("{:02x}", b)).collect();
    assert_eq!(fingerprint(b"header", 42, "SystemTime { tv_sec: 1, tv_nsec: 2 }"), expected);
    let fp = fingerprint(b"header", 42, "SystemTime { tv_sec: 1, tv_nsec: 2 }");
    assert_eq!(fp.len(), 32);
    assert_ne!(fp, fingerprint(b"header", 43, "SystemTime { tv_sec: 1, tv_nsec: 2 }"));
}

#[test]
fn sort_option_names_round_trip() {
    for option in [
        SortOption::DateNewest,
        SortOption::DateOldest,
        SortOption::DurationLongest,
        SortOption::DurationShortest,
        SortOption::NameAZ,
        SortOption::NameZA,
    ] {
        assert_eq!(SortOption::from_name(option.name()), Some(option));
        assert_eq!(option.name(), format!("{:?}", option));
    }
    assert_eq!(SortOption::from_name("nameaz"), None);
    assert_eq!(SortOption::from_name(""), None);
}

#[test]
fn view_mode_names_round_trip() {
    assert_eq!(ViewMode::from_name(ViewMode::AllVideos.name()), Some(ViewMode::AllVideos));
    assert_eq!(ViewMode::from_name(ViewMode::Favorites.name()), Some(ViewMode::Favorites));
    assert_eq!(ViewMode::Favorites.name(), "Favorites");
    assert_eq!(ViewMode::from_name("Favourites"), None);
}
