use video_catalog::scanner::{
    ends_with_text, is_video_extension, is_video_file_name, same_text, sprite_filter, sprite_layout,
    thumbnail_time, visits_entry, SpriteLayout,
};

#[test]
fn video_names_are_recognised_in_any_case() {
    assert!(is_video_file_name("clip.mp4"));
    assert!(is_video_file_name("Holiday.MOV"));
    assert!(is_video_file_name("trailer.WebM"));
    assert!(is_video_file_name("a.M4V"));
    assert!(!is_video_file_name("notes.txt"));
    assert!(!is_video_file_name("clip.mp4.part"));
    assert!(!is_video_file_name("mp4"));
}

#[test]
fn extension_check_expects_lower_case() {
    assert!(is_video_extension("x.avi"));
    assert!(is_video_extension("x.mkv"));
    assert!(!is_video_extension("x.MKV"));
}

#[test]
fn hidden_entries_and_tool_directories_are_skipped() {
    assert!(!visits_entry(".hidden.mp4", false));
    assert!(!visits_entry(".git", true));
    assert!(!visits_entry("node_modules", true));
    assert!(!visits_entry("__MACOSX", true));
    assert!(visits_entry("node_modules", false));
    assert!(visits_entry("Movies", true));
    assert!(visits_entry("clip.mov", false));
    assert!(visits_entry("", true));
}

#[test]
fn text_helpers_compare_characters() {
    assert!(ends_with_text("été.mkv", ".mkv"));
    assert!(!ends_with_text("kv", ".mkv"));
    assert!(same_text("日本", "日本"));
    assert!(!same_text("日本", "日"));
}

#[test]
fn sprite_layout_follows_duration() {
    assert_eq!(sprite_layout(5_000_000), SpriteLayout { seconds_per_tile: 1, columns: 10, rows: 1 });
    assert_eq!(sprite_layout(45_000_000), SpriteLayout { seconds_per_tile: 1, columns: 10, rows: 4 });
    assert_eq!(sprite_layout(41_000_001), SpriteLayout { seconds_per_tile: 1, columns: 10, rows: 4 });
    assert_eq!(sprite_layout(60_000_000), SpriteLayout { seconds_per_tile: 1, columns: 10, rows: 6 });
    assert_eq!(sprite_layout(60_000_001), SpriteLayout { seconds_per_tile: 3, columns: 10, rows: 10 });
    assert_eq!(sprite_layout(600_000_000), SpriteLayout { seconds_per_tile: 12, columns: 15, rows: 10 });
    assert_eq!(sprite_layout(3_600_000_000), SpriteLayout { seconds_per_tile: 30, columns: 20, rows: 10 });
    assert_eq!(sprite_layout(-1), SpriteLayout { seconds_per_tile: 1, columns: 10, rows: 1 });
}

#[test]
fn sprite_filter_text_of_layouts() {
    assert_eq!(
        sprite_filter(SpriteLayout { seconds_per_tile: 1, columns: 10, rows: 4 }),
        "fps=1,scale=160:90:force_original_aspect_ratio=decrease,pad=160:90:(ow-iw)/2:(oh-ih)/2,tile=10x4"
    );
    assert_eq!(
        sprite_filter(SpriteLayout { seconds_per_tile: 12, columns: 15, rows: 10 }),
        "fps=1/12,scale=160:90:force_original_aspect_ratio=decrease,pad=160:90:(ow-iw)/2:(oh-ih)/2,tile=15x10"
    );
}

#[test]
fn thumbnail_is_a_tenth_in_at_most_five_seconds() {
    assert_eq!(thumbnail_time(10_000_000), 1_000_000);
    assert_eq!(thumbnail_time(100_000_000), 5_000_000);
    assert_eq!(thumbnail_time(0), 0);
    assert_eq!(thumbnail_time(-5), 0);
}
