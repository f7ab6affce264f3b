use tui_torrent::app::{App, AppMode, Key};
use tui_torrent::torrent_search::TorrentSearchResult;

fn sample_results() -> Vec<TorrentSearchResult> {
    vec![TorrentSearchResult {
        name: "Test Torrent".into(),
        size: "1 GB".into(),
        seeders: 100,
        leechers: 10,
        magnet_link: "magnet:?xt=urn:btih:TEST".into(),
        source: "YTS".into(),
    }]
}

#[test]
fn start_search_sets_state() {
    let mut app = App::new();
    app.search_query = "ubuntu".into();
    app.start_search();
    assert_eq!(app.mode, AppMode::Searching);
    assert!(app.search_in_progress);
    assert!(app.search_results.is_empty());
    assert_eq!(app.loading_frame, 0);
}

#[test]
fn finish_search_moves_to_results() {
    let mut app = App::new();
    app.start_search();
    app.finish_search(sample_results());
    assert_eq!(app.mode, AppMode::Results);
    assert!(!app.search_in_progress);
    assert_eq!(app.search_results.len(), 1);
    assert!(app.status_message.contains("Found 1"));
}

#[test]
fn search_error_returns_to_normal() {
    let mut app = App::new();
    app.start_search();
    app.search_error("boom".into());
    assert_eq!(app.mode, AppMode::Normal);
    assert!(!app.search_in_progress);
    assert!(app.status_message.contains("boom"));
}

#[test]
fn loading_animation_cycles() {
    let mut app = App::new();
    app.start_search();
    let initial = app.loading_frame;
    for _ in 0..20 { app.update_loading_animation(); }
    assert!(app.loading_frame < 8); // stays within frame count
    assert_ne!(initial, app.loading_frame); // progressed
    assert!(!app.search_progress.is_empty());
}

#[test]
fn add_to_search_history() {
    let mut app = App::new();
    app.add_to_search_history("ubuntu".to_string());
    assert_eq!(app.search_history, vec!["ubuntu"]);
    app.add_to_search_history("debian".to_string());
    assert_eq!(app.search_history, vec!["ubuntu", "debian"]);
    app.add_to_search_history("ubuntu".to_string()); // duplicate
    assert_eq!(app.search_history, vec!["ubuntu", "debian"]); // no duplicate
}

#[test]
fn filter_search_history() {
    let mut app = App::new();
    app.search_history = vec!["ubuntu".to_string(), "debian".to_string(), "fedora".to_string()];
    app.search_query = "deb".to_string();
    app.filter_recents();
    assert_eq!(app.filtered_recents, vec!["debian"]);
    app.search_query = "ora".to_string();
    app.filter_recents();
    assert_eq!(app.filtered_recents, vec!["fedora"]);
    app.search_query = "".to_string();
    app.filter_recents();
    assert_eq!(app.filtered_recents, vec!["ubuntu", "debian", "fedora"]);
}

#[test]
fn finish_search_reports_new_history_entry() {
    let mut app = App::new();
    app.search_query = "ubuntu".into();
    app.start_search();
    assert!(app.finish_search(sample_results()));
    assert_eq!(app.status_message, "Found 1 results");
    app.start_search();
    assert!(!app.finish_search(Vec::new()));
    assert_eq!(app.search_history, vec!["ubuntu"]);
}

#[test]
fn typing_in_search_mode_filters_recents() {
    let mut app = App::with_history(vec!["ubuntu".to_string(), "debian".to_string()]);
    app.handle_key(Key::Char('s'));
    assert_eq!(app.mode, AppMode::Search);
    assert_eq!(app.filtered_recents, vec!["ubuntu", "debian"]);
    app.handle_key(Key::Char('d'));
    app.handle_key(Key::Char('e'));
    assert_eq!(app.search_query, "de");
    assert_eq!(app.filtered_recents, vec!["debian"]);
    app.handle_key(Key::Backspace);
    assert_eq!(app.search_query, "d");
    app.handle_key(Key::Enter);
    assert_eq!(app.search_query, "debian");
    assert_eq!(app.mode, AppMode::Searching);
    app.handle_key(Key::Esc);
    assert_eq!(app.mode, AppMode::Normal);
    assert_eq!(app.status_message, "Search cancelled");
}

#[test]
fn results_navigation_wraps() {
    let mut app = App::new();
    let mut results = sample_results();
    results.extend(sample_results());
    app.finish_search(results);
    app.handle_key(Key::Up);
    assert_eq!(app.selected_index, 1);
    app.handle_key(Key::Char('j'));
    assert_eq!(app.selected_index, 0);
    app.handle_key(Key::Enter);
    assert!(app.download_requested);
    app.handle_key(Key::Esc);
    assert_eq!(app.mode, AppMode::Normal);
    assert!(app.search_results.is_empty());
}

#[test]
fn down_in_empty_recents_does_nothing() {
    let mut app = App::new();
    app.handle_key(Key::Char('s'));
    app.handle_key(Key::Down);
    assert_eq!(app.recents_index, 0);
    app.handle_key(Key::Char('q'));
    assert_eq!(app.search_query, "q");
    assert!(!app.should_quit);
}

#[test]
fn quit_from_normal_mode() {
    let mut app = App::new();
    app.handle_key(Key::Char('q'));
    assert!(app.should_quit);
}

#[test]
fn loading_indicator_follows_frame() {
    let mut app = App::new();
    assert_eq!(app.get_loading_indicator(), "\u{280b}");
    app.start_search();
    app.update_loading_animation();
    assert_eq!(app.loading_frame, 1);
    assert_eq!(app.get_loading_indicator(), "\u{2819}");
    assert_eq!(app.search_progress, "Connecting to YTS movie database...");
}
