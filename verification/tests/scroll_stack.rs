use rmpc_ui::browser::{DirOrSong, DirOrSongInfo, Song, SongExt, SymbolsConfig, ToListItems};
use rmpc_ui::dirstack::{
    find_first_match, find_next_match, find_prev_match, DirStack, ListState, MyState, TableState,
};
use rmpc_ui::browser::{preview_lines, u64_to_string};
use rmpc_ui::search::{str_contains, MatchesSearch};

fn song(id: u32, title: &str) -> Song {
    Song {
        id,
        file: format!("music/{title}.flac"),
        title: Some(title.to_string()),
        artist: Some("Artist".to_string()),
        album: None,
        duration_secs: Some(95),
        others: Vec::new(),
    }
}

fn state_with(content: usize, viewport: usize) -> MyState<ListState> {
    let mut s = MyState::new(ListState::default());
    s.content_len(Some(content));
    s.viewport_len(Some(viewport));
    s
}

#[test]
fn leaves_at_least_one_element_in_others() {
    let mut val: DirStack<String> = DirStack::new(Vec::new());
    val.push(Vec::new());
    assert!(val.pop().is_some());
    assert!(val.pop().is_none());

    val.previous();
}

#[test]
fn next_saturates_at_the_last_item() {
    // content length 5, selection on the last item, no wrapping
    let mut s = state_with(5, 3);
    s.select(Some(4), 0);
    s.next(0, false);
    assert_eq!(s.get_selected(), Some(4));
    s.next(0, false);
    assert_eq!(s.get_selected(), Some(4));
}

#[test]
fn prev_saturates_at_the_first_item() {
    let mut s = state_with(5, 3);
    s.select(Some(0), 0);
    s.prev(0, false);
    assert_eq!(s.get_selected(), Some(0));
    s.prev(0, false);
    assert_eq!(s.get_selected(), Some(0));
}

#[test]
fn next_and_prev_stay_in_range_without_wrapping() {
    let mut s = state_with(3, 3);
    s.select(Some(1), 0);
    for _ in 0..10 {
        s.next(0, false);
        let sel = s.get_selected().unwrap();
        assert!(sel < 3);
    }
    assert_eq!(s.get_selected(), Some(2));
    for _ in 0..10 {
        s.prev(0, false);
        let sel = s.get_selected().unwrap();
        assert!(sel < 3);
    }
    assert_eq!(s.get_selected(), Some(0));
}

#[test]
fn wrapping_next_cycles_back_after_content_length_steps() {
    let mut s = state_with(4, 2);
    s.select(Some(2), 0);
    for _ in 0..4 {
        s.next(0, true);
    }
    assert_eq!(s.get_selected(), Some(2));
}

#[test]
fn wrapping_next_wraps_to_the_first_item() {
    let mut s = state_with(3, 2);
    s.select(Some(2), 0);
    s.next(0, true);
    assert_eq!(s.get_selected(), Some(0));
}

#[test]
fn selected_row_maps_back_to_selected_index() {
    let mut s = state_with(10, 4);
    s.select(Some(7), 1);
    let offset = s.offset;
    assert!(offset <= 7);
    let row = 7 - offset;
    assert_eq!(s.get_at_rendered_row(row), Some(7));
}

#[test]
fn rows_outside_the_viewport_map_to_nothing() {
    let mut s = state_with(3, 10);
    s.select(Some(0), 0);
    assert_eq!(s.get_at_rendered_row(10), None);
    assert_eq!(s.get_at_rendered_row(3), None);
}

#[test]
fn select_clamps_to_the_content() {
    let mut s = state_with(3, 3);
    s.select(Some(17), 0);
    assert_eq!(s.get_selected(), Some(2));
    let mut empty = state_with(0, 3);
    empty.select(Some(0), 0);
    assert_eq!(empty.get_selected(), None);
}

#[test]
fn half_viewport_moves_clamp() {
    let mut s = state_with(10, 4);
    s.select(Some(8), 0);
    s.next_half_viewport(0);
    assert_eq!(s.get_selected(), Some(9));
    s.prev_half_viewport(0);
    assert_eq!(s.get_selected(), Some(7));
    s.first(0);
    assert_eq!(s.get_selected(), Some(0));
    s.last(0);
    assert_eq!(s.get_selected(), Some(9));
}

#[test]
fn table_state_tracks_selection_like_list_state() {
    let mut t = MyState::new(TableState::default());
    t.content_len(Some(2));
    t.select(Some(1), 0);
    assert_eq!(t.get_selected(), Some(1));
}

#[test]
fn pop_on_fresh_stack_returns_none() {
    let mut stack: DirStack<String> = DirStack::new(vec!["a".to_string(), "b".to_string()]);
    assert!(stack.pop().is_none());
    assert_eq!(stack.current().0.len(), 2);
}

#[test]
fn pop_after_push_restores_the_root_frame() {
    let mut stack: DirStack<String> = DirStack::new(vec!["a".to_string(), "b".to_string()]);
    stack.next();
    let selection_before = stack.current().1.get_selected();
    let items_before = stack.current().0.clone();

    stack.push(vec!["inner".to_string()]);
    let popped = stack.pop().expect("a pushed frame must pop");
    assert_eq!(popped.0, vec!["inner".to_string()]);
    assert_eq!(stack.current().0, items_before);
    assert_eq!(stack.current().1.get_selected(), selection_before);
}

#[test]
fn push_of_empty_listing_selects_nothing() {
    let mut stack: DirStack<String> = DirStack::new(vec!["root".to_string()]);
    stack.push(Vec::new());
    assert_eq!(stack.current().1.get_selected(), None);
    stack.push(vec!["x".to_string(), "y".to_string(), "z".to_string()]);
    assert_eq!(stack.current().1.get_selected(), Some(0));
}

#[test]
fn push_clears_the_filter() {
    let mut stack: DirStack<String> = DirStack::new(vec!["root".to_string()]);
    stack.filter = Some("ro".to_string());
    stack.push(vec!["x".to_string()]);
    assert!(stack.filter.is_none());
}

#[test]
fn jump_forward_finds_the_next_match_wrapping() {
    let items = vec![
        "apple".to_string(),
        "banana".to_string(),
        "apricot".to_string(),
        "cherry".to_string(),
    ];
    let mut stack: DirStack<String> = DirStack::new(items);
    stack.filter = Some("ap".to_string());
    stack.current_state_mut().select(Some(2), 0);
    stack.jump_forward();
    // wraps past the end back to index 0
    assert_eq!(stack.current().1.get_selected(), Some(0));
}

#[test]
fn jump_round_trip_returns_to_the_start() {
    let items = vec![
        "match one".to_string(),
        "other".to_string(),
        "match two".to_string(),
        "another".to_string(),
    ];
    let mut stack: DirStack<String> = DirStack::new(items);
    stack.filter = Some("match".to_string());
    stack.current_state_mut().select(Some(0), 0);
    stack.jump_forward();
    assert_eq!(stack.current().1.get_selected(), Some(2));
    stack.jump_back();
    assert_eq!(stack.current().1.get_selected(), Some(0));
}

#[test]
fn jump_without_filter_changes_nothing() {
    let mut stack: DirStack<String> = DirStack::new(vec!["a".to_string()]);
    stack.jump_forward();
    assert_eq!(stack.current().1.get_selected(), Some(0));
    stack.jump_back();
    assert_eq!(stack.current().1.get_selected(), Some(0));
}

#[test]
fn find_match_helpers_scan_cyclically() {
    let items = vec![
        song(1, "Blue Train"),
        song(2, "Giant Steps"),
        song(3, "Blue in Green"),
    ];
    assert_eq!(find_next_match(&items, "blue", true, 0), Some(2));
    assert_eq!(find_next_match(&items, "blue", true, 2), Some(0));
    assert_eq!(find_prev_match(&items, "blue", true, 0), Some(2));
    assert_eq!(find_first_match(&items, "giant", true), Some(1));
    assert_eq!(find_first_match(&items, "missing", true), None);
}

#[test]
fn substring_search_is_exact() {
    assert!(str_contains("hello world", "lo wo"));
    assert!(str_contains("hello", ""));
    assert!(!str_contains("hello", "world"));
    assert!(!str_contains("ab", "abc"));
}

#[test]
fn matching_is_case_insensitive_by_default() {
    let s = "SoMe TiTlE".to_string();
    assert!(s.matches("some title", true));
    assert!(s.matches("TITLE", true));
    assert!(!s.matches("TITLE", false));
    assert!(s.matches("TiTl", false));
}

#[test]
fn dir_or_song_matches_its_display_text() {
    let dir = DirOrSong::Dir("Albums".to_string());
    assert!(dir.matches("alb", true));
    assert_eq!(dir.to_current_value(), "Albums");
    let unnamed = DirOrSongInfo::Song(Song { title: None, ..song(9, "x") });
    assert!(unnamed.matches("untitled", true));
}

#[test]
fn song_fallback_strings() {
    let with_title = song(1, "Name");
    assert_eq!(with_title.title_str(), "Name");
    let untitled = Song { title: None, artist: None, ..song(2, "x") };
    assert_eq!(untitled.title_str(), "Untitled");
    assert_eq!(untitled.artist_str(), "Untitled");
}

#[test]
fn decimal_rendering_is_exact() {
    assert_eq!(u64_to_string(0), "0");
    assert_eq!(u64_to_string(7), "7");
    assert_eq!(u64_to_string(42), "42");
    assert_eq!(u64_to_string(1000), "1000");
    assert_eq!(u64_to_string(18_446_744_073_709_551_615), "18446744073709551615");
}

#[test]
fn song_preview_lines_carry_the_tags() {
    let symbols = SymbolsConfig { dir: "D".to_string(), song: "S".to_string() };
    let mut s = song(5, "Tune");
    s.others = vec![("Genre".to_string(), "Jazz".to_string())];
    let lines = s.to_listitems(&symbols);
    assert_eq!(lines.len(), 5);
    assert_eq!(lines[0].key, "Title");
    assert_eq!(lines[0].value, "Tune");
    assert_eq!(lines[1].key, "Artist");
    assert_eq!(lines[3].key, "Duration");
    assert_eq!(lines[3].value, "95");
    assert_eq!(lines[4].key, "Genre");
    assert_eq!(lines[4].value, "Jazz");
}

#[test]
fn preview_lines_sort_directories_first_then_by_text() {
    let symbols = SymbolsConfig { dir: "d".to_string(), song: "s".to_string() };
    let listing = vec![
        DirOrSongInfo::Song(song(1, "Zebra")),
        DirOrSongInfo::Dir("singles".to_string()),
        DirOrSongInfo::Song(song(2, "Alpha")),
        DirOrSongInfo::Dir("albums".to_string()),
    ];
    let lines = preview_lines(listing, &symbols);
    let shown: Vec<(String, String)> =
        lines.into_iter().map(|l| (l.key, l.value)).collect();
    assert_eq!(
        shown,
        vec![
            ("d".to_string(), "albums".to_string()),
            ("d".to_string(), "singles".to_string()),
            ("s".to_string(), "Alpha".to_string()),
            ("s".to_string(), "Zebra".to_string()),
        ]
    );
}

#[test]
fn listing_lines_use_the_symbols() {
    let symbols = SymbolsConfig { dir: "d".to_string(), song: "s".to_string() };
    let listing = vec![
        DirOrSong::Dir("sub".to_string()),
        DirOrSong::Song("tune".to_string()),
    ];
    let lines = listing.to_listitems(&symbols);
    assert_eq!(lines.len(), 2);
    assert_eq!(lines[0].key, "d");
    assert_eq!(lines[0].value, "sub");
    assert_eq!(lines[1].key, "s");
    assert_eq!(lines[1].value, "tune");
}
