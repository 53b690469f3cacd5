use video_catalog::catalog::{SortOption, ViewMode};
use video_catalog::grid::{grid_order, lex_less_text, Video};

fn video(name: &str, duration: i64, created_at: i64, is_favorite: bool) -> Video {
    Video {
        id: name.to_string(),
        file_path: format!("/lib/{}", name),
        file_name: name.to_string(),
        file_size: 1,
        duration,
        width: None,
        height: None,
        created_at,
        has_thumbnail: false,
        has_sprite: false,
        thumbnail_path: None,
        sprite_path: None,
        is_favorite,
    }
}

fn library() -> Vec<Video> {
    vec![
        video("b.mp4", 30, 200, false),
        video("A.mov", 10, 300, true),
        video("c.mkv", 20, 100, true),
        video("a2.avi", 20, 300, false),
    ]
}

#[test]
fn grid_sorts_by_date() {
    let videos = library();
    assert_eq!(grid_order(&videos, ViewMode::AllVideos, SortOption::DateNewest), vec![1, 3, 0, 2]);
    assert_eq!(grid_order(&videos, ViewMode::AllVideos, SortOption::DateOldest), vec![2, 0, 1, 3]);
}

#[test]
fn grid_sorts_by_duration_keeping_ties_in_catalog_order() {
    let videos = library();
    assert_eq!(grid_order(&videos, ViewMode::AllVideos, SortOption::DurationLongest), vec![0, 2, 3, 1]);
    assert_eq!(grid_order(&videos, ViewMode::AllVideos, SortOption::DurationShortest), vec![1, 2, 3, 0]);
}

#[test]
fn grid_sorts_by_name_ignoring_case() {
    let videos = library();
    assert_eq!(grid_order(&videos, ViewMode::AllVideos, SortOption::NameAZ), vec![1, 3, 0, 2]);
    assert_eq!(grid_order(&videos, ViewMode::AllVideos, SortOption::NameZA), vec![2, 0, 3, 1]);
}

#[test]
fn grid_shows_only_favorites_in_favorites_view() {
    let videos = library();
    assert_eq!(grid_order(&videos, ViewMode::Favorites, SortOption::DateNewest), vec![1, 2]);
    assert_eq!(grid_order(&videos, ViewMode::Favorites, SortOption::NameZA), vec![2, 1]);
}

#[test]
fn grid_of_empty_catalog_is_empty() {
    assert!(grid_order(&Vec::new(), ViewMode::AllVideos, SortOption::NameAZ).is_empty());
}

#[test]
fn lexicographic_order_of_texts() {
    assert!(lex_less_text("a", "b"));
    assert!(lex_less_text("a", "ab"));
    assert!(!lex_less_text("ab", "a"));
    assert!(!lex_less_text("a", "a"));
    assert!(lex_less_text("", "a"));
    assert!(lex_less_text("z", "é"));
}
