use dirnav::controller::{step, translate_key, Action, KeyCommand};
use dirnav::listing::{DirectoryEntry, DirectoryListing, ListError};
use dirnav::path::{parent_dir, DirPath};
use dirnav::search::{resolve, starts_with};
use dirnav::viewport::{NavigationState, ROWS_PER_PAGE};

fn path_a() -> DirPath {
    DirPath::new(vec![String::from("a")])
}

fn listing_a() -> DirectoryListing {
    DirectoryListing::new(
        path_a(),
        vec![
            DirectoryEntry::new(String::from("b"), true),
            DirectoryEntry::new(String::from("c"), true),
            DirectoryEntry::new(String::from("d.txt"), false),
        ],
    )
}

fn orchard_listing() -> DirectoryListing {
    DirectoryListing::new(
        path_a(),
        vec![
            DirectoryEntry::new(String::from("apple"), true),
            DirectoryEntry::new(String::from("banana"), true),
            DirectoryEntry::new(String::from("cherry"), true),
            DirectoryEntry::new(String::from("readme.txt"), false),
        ],
    )
}

#[test]
fn wrap_up_from_first_selects_last() {
    let mut state = NavigationState::new(path_a());
    state.refresh_count(3);
    assert_eq!(state.selected_index, 0);
    state.move_up();
    assert_eq!(state.selected_index, 2);
}

#[test]
fn wrap_down_from_last_selects_first() {
    let mut state = NavigationState::new(path_a());
    state.refresh_count(3);
    state.move_up();
    assert_eq!(state.selected_index, 2);
    state.move_down();
    assert_eq!(state.selected_index, 0);
}

#[test]
fn moves_step_by_one_inside_the_listing() {
    let mut state = NavigationState::new(path_a());
    state.refresh_count(4);
    state.move_down();
    assert_eq!(state.selected_index, 1);
    state.move_down();
    assert_eq!(state.selected_index, 2);
    state.move_up();
    assert_eq!(state.selected_index, 1);
}

#[test]
fn scenario_browse_wrap_and_enter() {
    let listing = listing_a();
    let mut state = NavigationState::new(path_a());
    state.refresh_count(listing.len());
    assert_eq!(state.selected_index, 0);
    state.move_down();
    assert_eq!(state.selected_index, 1);
    state.move_down();
    assert_eq!(state.selected_index, 2);

    // Enter on `d.txt`: not a directory, so nothing changes.
    let changed = state.apply_enter(&listing);
    assert!(!changed);
    assert_eq!(state.selected_index, 2);
    assert_eq!(state.current_path.display_string(), "/a");
    assert_eq!(state.entry_count, 3);

    // MoveDown wraps back to `b`.
    state.move_down();
    assert_eq!(state.selected_index, 0);

    // Enter on `b` descends and resets the selection.
    let changed = state.apply_enter(&listing);
    assert!(changed);
    assert_eq!(state.current_path.display_string(), "/a/b");
    assert_eq!(state.selected_index, 0);

    // The fresh listing of /a/b is installed afterwards.
    state.refresh_count(5);
    assert_eq!(state.entry_count, 5);
    assert_eq!(state.selected_index, 0);
}

#[test]
fn enter_with_out_of_range_selection_is_a_no_op() {
    let mut state = NavigationState::new(path_a());
    state.refresh_count(3);
    state.move_down();
    state.move_down();
    assert_eq!(state.selected_index, 2);
    // The directory shrank on disk between render and Enter.
    let shrunk = DirectoryListing::new(
        path_a(),
        vec![DirectoryEntry::new(String::from("b"), true)],
    );
    let changed = state.apply_enter(&shrunk);
    assert!(!changed);
    assert_eq!(state.current_path.display_string(), "/a");
    assert_eq!(state.selected_index, 2);
}

#[test]
fn empty_listing_pins_selection_and_commands_are_no_ops() {
    let mut state = NavigationState::new(path_a());
    let empty = DirectoryListing::new(path_a(), vec![]);
    state.refresh_count(empty.len());
    assert_eq!(state.entry_count, 0);
    assert_eq!(state.selected_index, 0);
    state.move_up();
    assert_eq!(state.selected_index, 0);
    state.move_down();
    assert_eq!(state.selected_index, 0);
    let changed = state.apply_enter(&empty);
    assert!(!changed);
    assert_eq!(state.current_path.display_string(), "/a");
    assert_eq!(state.selected_index, 0);
}

#[test]
fn refresh_clamps_a_stale_selection() {
    let mut state = NavigationState::new(path_a());
    state.refresh_count(6);
    for _ in 0..5 {
        state.move_down();
    }
    assert_eq!(state.selected_index, 5);
    state.refresh_count(3);
    assert_eq!(state.selected_index, 2);
    state.refresh_count(0);
    assert_eq!(state.selected_index, 0);
}

#[test]
fn ascend_moves_to_the_parent_and_resets_selection() {
    let mut state = NavigationState::new(DirPath::new(vec![
        String::from("a"),
        String::from("b"),
    ]));
    state.refresh_count(4);
    state.move_down();
    let changed = state.apply_ascend();
    assert!(changed);
    assert_eq!(state.current_path.display_string(), "/a");
    assert_eq!(state.selected_index, 0);
}

#[test]
fn ascend_at_root_changes_nothing() {
    let mut state = NavigationState::new(DirPath::root());
    state.refresh_count(2);
    state.move_down();
    let changed = state.apply_ascend();
    assert!(!changed);
    assert_eq!(state.current_path.display_string(), "/");
    assert_eq!(state.selected_index, 1);
    assert_eq!(state.entry_count, 2);
}

#[test]
fn parent_dir_of_root_is_root() {
    let p = parent_dir(DirPath::root());
    assert_eq!(p.display_string(), "/");
}

#[test]
fn parent_dir_drops_the_last_component() {
    let p = parent_dir(DirPath::new(vec![String::from("a"), String::from("b")]));
    assert_eq!(p.display_string(), "/a");
}

#[test]
fn display_string_of_root_and_nested_paths() {
    assert_eq!(DirPath::root().display_string(), "/");
    assert_eq!(path_a().display_string(), "/a");
    let nested = DirPath::new(vec![
        String::from("usr"),
        String::from("local"),
        String::from("bin"),
    ]);
    assert_eq!(nested.display_string(), "/usr/local/bin");
}

#[test]
fn starts_with_compares_prefixes_by_characters() {
    assert!(starts_with("cherry", "c"));
    assert!(starts_with("cherry", "cherry"));
    assert!(starts_with("cherry", ""));
    assert!(!starts_with("cherry", "z"));
    assert!(!starts_with("c", "cherry"));
}

#[test]
fn resolve_finds_the_first_matching_directory() {
    let listing = orchard_listing();
    assert_eq!(resolve(&listing, "c"), Some(2));
    assert_eq!(resolve(&listing, "z"), None);
    // Files are never candidates, even when their name matches.
    assert_eq!(resolve(&listing, "readme"), None);
    // The first match in listing order wins.
    assert_eq!(resolve(&listing, ""), Some(0));
}

#[test]
fn jump_descends_into_the_first_match() {
    let listing = orchard_listing();
    let mut state = NavigationState::new(path_a());
    state.refresh_count(listing.len());
    let matched = state.apply_jump(&listing, "c");
    assert!(matched);
    assert_eq!(state.current_path.display_string(), "/a/cherry");
    assert_eq!(state.selected_index, 0);
}

#[test]
fn jump_without_a_match_changes_nothing() {
    let listing = orchard_listing();
    let mut state = NavigationState::new(path_a());
    state.refresh_count(listing.len());
    state.move_down();
    let matched = state.apply_jump(&listing, "z");
    assert!(!matched);
    assert_eq!(state.current_path.display_string(), "/a");
    assert_eq!(state.selected_index, 1);
    assert_eq!(state.entry_count, 4);
}

#[test]
fn viewport_trails_the_selection_by_one_page() {
    let mut state = NavigationState::new(path_a());
    state.refresh_count(25);
    for _ in 0..17 {
        state.move_down();
    }
    assert_eq!(state.selected_index, 17);
    let w = state.viewport_window();
    assert_eq!(w.first_visible_index, 7);
    assert_eq!(w.visible_count, 18);
}

#[test]
fn viewport_starts_at_the_top_for_small_selections() {
    let mut state = NavigationState::new(path_a());
    state.refresh_count(25);
    let w = state.viewport_window();
    assert_eq!(w.first_visible_index, 0);
    assert_eq!(w.visible_count, 25);
    for _ in 0..ROWS_PER_PAGE {
        state.move_down();
    }
    let w = state.viewport_window();
    assert_eq!(w.first_visible_index, 0);
    assert_eq!(w.visible_count, 25);
    state.move_down();
    let w = state.viewport_window();
    assert_eq!(w.first_visible_index, 1);
}

#[test]
fn render_rows_mark_directories_and_the_selection() {
    let listing = listing_a();
    let mut state = NavigationState::new(path_a());
    state.refresh_count(listing.len());
    state.move_down();
    let rows = state.render_rows(&listing);
    assert_eq!(rows.len(), 3);
    assert_eq!(rows[0].text, "b/");
    assert_eq!(rows[1].text, "c/");
    assert_eq!(rows[2].text, "d.txt");
    assert!(!rows[0].is_selected);
    assert!(rows[1].is_selected);
    assert!(!rows[2].is_selected);
}

#[test]
fn render_rows_show_only_the_window_slice() {
    let mut entries = Vec::new();
    for i in 0..15 {
        entries.push(DirectoryEntry::new(format!("f{}", i), false));
    }
    let listing = DirectoryListing::new(path_a(), entries);
    let mut state = NavigationState::new(path_a());
    state.refresh_count(listing.len());
    for _ in 0..12 {
        state.move_down();
    }
    let rows = state.render_rows(&listing);
    assert_eq!(rows.len(), 13);
    assert_eq!(rows[0].text, "f2");
    assert_eq!(rows[12].text, "f14");
    assert!(rows[10].is_selected);
}

#[test]
fn translate_key_maps_the_recognized_keys() {
    assert_eq!(translate_key('q'), Some(KeyCommand::Quit));
    assert_eq!(translate_key('w'), Some(KeyCommand::MoveUp));
    assert_eq!(translate_key('k'), Some(KeyCommand::MoveUp));
    assert_eq!(translate_key('d'), Some(KeyCommand::MoveDown));
    assert_eq!(translate_key('j'), Some(KeyCommand::MoveDown));
    assert_eq!(translate_key('e'), Some(KeyCommand::Enter));
    assert_eq!(translate_key('l'), Some(KeyCommand::Enter));
    assert_eq!(translate_key('a'), Some(KeyCommand::Ascend));
    assert_eq!(translate_key('h'), Some(KeyCommand::Ascend));
    assert_eq!(translate_key('s'), Some(KeyCommand::Search));
    assert_eq!(translate_key('/'), Some(KeyCommand::Search));
    assert_eq!(translate_key('c'), Some(KeyCommand::CopyPath));
    assert_eq!(translate_key('y'), Some(KeyCommand::CopyPath));
    assert_eq!(translate_key('x'), None);
    assert_eq!(translate_key('\n'), None);
}

#[test]
fn step_dispatches_commands_and_reports_actions() {
    let listing = listing_a();
    let mut state = NavigationState::new(path_a());
    state.refresh_count(listing.len());

    assert_eq!(step(&mut state, KeyCommand::MoveDown, &listing), Action::Redraw);
    assert_eq!(state.selected_index, 1);

    assert_eq!(step(&mut state, KeyCommand::Search, &listing), Action::PromptSearch);
    assert_eq!(state.selected_index, 1);

    assert_eq!(step(&mut state, KeyCommand::CopyPath, &listing), Action::CopyPath);
    assert_eq!(state.current_path.display_string(), "/a");

    assert_eq!(step(&mut state, KeyCommand::Enter, &listing), Action::Redraw);
    assert_eq!(state.current_path.display_string(), "/a/c");
    assert_eq!(state.selected_index, 0);

    assert_eq!(step(&mut state, KeyCommand::Ascend, &listing), Action::Redraw);
    assert_eq!(state.current_path.display_string(), "/a");

    assert_eq!(step(&mut state, KeyCommand::Quit, &listing), Action::Quit);
    assert_eq!(state.current_path.display_string(), "/a");
}

#[test]
fn list_error_has_a_one_line_message() {
    let e = ListError::Unreadable;
    assert_eq!(e.message(), "directory unreadable");
}
