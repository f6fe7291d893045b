use quill::clamp_font_size;
use quill::recent::{add_recent_file_impl, clear_recent_files_impl, remove_recent_file};
use quill::session::{base_name, AppState};
use quill::settings::{Settings, SettingsParts};
use quill::text::{check_file_size, decode_text, encode_text, FileError, MAX_FILE_SIZE};

fn default_settings() -> Settings {
    Settings::default()
}

fn parts_all_absent() -> SettingsParts {
    SettingsParts {
        theme: None,
        font_size: None,
        word_wrap: None,
        window_width: None,
        window_height: None,
        window_x: None,
        window_y: None,
        recent_files: None,
    }
}

#[test]
fn defaults_match_documented_values() {
    let s = default_settings();
    assert_eq!(s.theme, "dark");
    assert_eq!(s.font_size, 14);
    assert!(s.word_wrap);
    assert_eq!(s.window_width, 1000);
    assert_eq!(s.window_height, 700);
    assert_eq!(s.window_x, None);
    assert_eq!(s.window_y, None);
    assert!(s.recent_files.is_empty());
}

#[test]
fn load_keeps_present_fields_and_defaults_the_rest() {
    let mut parts = parts_all_absent();
    parts.theme = Some(String::from("light"));
    parts.window_x = Some(12);
    parts.recent_files = Some(vec![String::from("/tmp/a.md")]);
    let s = Settings::from_parts(parts);
    assert_eq!(s.theme, "light");
    assert_eq!(s.font_size, 14);
    assert!(s.word_wrap);
    assert_eq!(s.window_width, 1000);
    assert_eq!(s.window_height, 700);
    assert_eq!(s.window_x, Some(12));
    assert_eq!(s.window_y, None);
    assert_eq!(s.recent_files, vec![String::from("/tmp/a.md")]);
}

#[test]
fn unparsable_file_means_all_defaults() {
    let s = Settings::from_parts(parts_all_absent());
    assert_eq!(s.theme, "dark");
    assert_eq!(s.font_size, 14);
    assert!(s.word_wrap);
    assert_eq!(s.window_width, 1000);
    assert_eq!(s.window_height, 700);
    assert!(s.recent_files.is_empty());
}

#[test]
fn parts_roundtrip_preserves_every_field() {
    let mut s = default_settings();
    s.theme = String::from("light");
    s.font_size = 20;
    s.word_wrap = false;
    s.window_width = 800;
    s.window_height = 600;
    s.window_x = Some(-5);
    s.window_y = Some(40);
    s.recent_files = vec![String::from("/tmp/a.md"), String::from("/tmp/b.md")];
    let restored = Settings::from_parts(s.to_parts());
    assert_eq!(restored.theme, "light");
    assert_eq!(restored.font_size, 20);
    assert!(!restored.word_wrap);
    assert_eq!(restored.window_width, 800);
    assert_eq!(restored.window_height, 600);
    assert_eq!(restored.window_x, Some(-5));
    assert_eq!(restored.window_y, Some(40));
    assert_eq!(
        restored.recent_files,
        vec![String::from("/tmp/a.md"), String::from("/tmp/b.md")]
    );
}

#[test]
fn add_recent_twice_leaves_one_occurrence_in_front() {
    let mut s = default_settings();
    s.recent_files = vec![String::from("/tmp/a.md"), String::from("/tmp/b.md")];
    add_recent_file_impl(&mut s, "/tmp/b.md");
    add_recent_file_impl(&mut s, "/tmp/b.md");
    assert_eq!(
        s.recent_files,
        vec![String::from("/tmp/b.md"), String::from("/tmp/a.md")]
    );
}

#[test]
fn recent_list_is_capped_and_evicts_oldest_first() {
    let mut s = default_settings();
    for i in 0..12 {
        add_recent_file_impl(&mut s, &format!("/tmp/f{}.md", i));
    }
    assert_eq!(s.recent_files.len(), 10);
    // the two oldest entries, f0 and f1, have been evicted
    assert_eq!(s.recent_files[0], "/tmp/f11.md");
    assert_eq!(s.recent_files[9], "/tmp/f2.md");
}

#[test]
fn add_recent_moves_existing_entry_to_front() {
    let mut s = default_settings();
    add_recent_file_impl(&mut s, "/tmp/a.md");
    add_recent_file_impl(&mut s, "/tmp/b.md");
    add_recent_file_impl(&mut s, "/tmp/a.md");
    assert_eq!(
        s.recent_files,
        vec![String::from("/tmp/a.md"), String::from("/tmp/b.md")]
    );
}

#[test]
fn remove_recent_deletes_matching_entries_only() {
    let mut s = default_settings();
    add_recent_file_impl(&mut s, "/tmp/a.md");
    add_recent_file_impl(&mut s, "/tmp/b.md");
    remove_recent_file(&mut s, "/tmp/a.md");
    assert_eq!(s.recent_files, vec![String::from("/tmp/b.md")]);
}

#[test]
fn clear_recent_empties_the_list() {
    let mut s = default_settings();
    add_recent_file_impl(&mut s, "/tmp/a.md");
    clear_recent_files_impl(&mut s);
    assert!(s.recent_files.is_empty());
}

#[test]
fn get_recent_files_returns_a_copy() {
    let mut s = default_settings();
    add_recent_file_impl(&mut s, "/tmp/a.md");
    let copy = s.get_recent_files();
    assert_eq!(copy, vec![String::from("/tmp/a.md")]);
}

#[test]
fn exactly_ten_mebibytes_is_accepted() {
    assert_eq!(MAX_FILE_SIZE, 10 * 1024 * 1024);
    assert!(check_file_size(10 * 1024 * 1024).is_ok());
}

#[test]
fn one_byte_over_ten_mebibytes_is_too_large() {
    match check_file_size(10 * 1024 * 1024 + 1) {
        Err(FileError::TooLarge(mib)) => assert_eq!(mib, 10),
        _ => panic!("expected the too-large error"),
    }
}

#[test]
fn valid_utf8_bytes_decode_as_utf8() {
    // "héllo" is two bytes for the accented letter, one character after decoding
    let bytes: Vec<u8> = vec![0x68, 0xC3, 0xA9, 0x6C, 0x6C, 0x6F];
    let text = decode_text(&bytes);
    assert_eq!(text, "h\u{e9}llo");
    assert_eq!(text.chars().count(), 5);
}

#[test]
fn invalid_utf8_falls_back_to_byte_for_byte() {
    let bytes: Vec<u8> = vec![0xFF, 0x61, 0x62];
    let text = decode_text(&bytes);
    let chars: Vec<char> = text.chars().collect();
    assert_eq!(chars, vec!['\u{ff}', 'a', 'b']);
}

#[test]
fn encode_text_yields_utf8_bytes() {
    assert_eq!(encode_text("\u{e9}"), vec![0xC3, 0xA9]);
    assert_eq!(encode_text("ab"), vec![0x61, 0x62]);
}

#[test]
fn write_then_read_returns_identical_text() {
    let original = String::from("# Notes\n\u{e9}\u{4e16}\u{754c}\n");
    let written = encode_text(&original);
    let read_back = decode_text(&written);
    assert_eq!(read_back, original);
}

#[test]
fn base_name_takes_the_part_after_the_last_separator() {
    assert_eq!(base_name("/tmp/docs/c.md"), "c.md");
    assert_eq!(base_name("c.md"), "c.md");
    assert_eq!(base_name("C:\\docs\\y.md"), "y.md");
}

#[test]
fn open_reports_unmodified_and_the_base_name() {
    let mut state = AppState::new(default_settings(), None);
    state.record_open("/tmp/story.md");
    let fs = state.get_file_state();
    assert_eq!(fs.path, Some(String::from("/tmp/story.md")));
    assert!(!fs.modified);
    assert_eq!(fs.filename, "story.md");
    assert_eq!(state.settings.recent_files, vec![String::from("/tmp/story.md")]);
}

#[test]
fn title_carries_a_trailing_marker_when_modified() {
    let mut state = AppState::new(default_settings(), None);
    state.record_open("/tmp/story.md");
    assert_eq!(state.window_title(), "Quill - story.md");
    state.set_modified(true);
    assert_eq!(state.window_title(), "Quill - story.md*");
}

#[test]
fn untitled_document_title() {
    let mut state = AppState::new(default_settings(), None);
    let content = state.new_file();
    assert_eq!(content, "");
    assert_eq!(state.window_title(), "Quill - Untitled");
    let fs = state.get_file_state();
    assert_eq!(fs.path, None);
    assert_eq!(fs.filename, "Untitled");
}

#[test]
fn startup_file_is_consumed_at_most_once() {
    let mut state = AppState::new(default_settings(), Some(String::from("/tmp/start.md")));
    assert_eq!(state.consume_startup_file(), Some(String::from("/tmp/start.md")));
    assert_eq!(state.consume_startup_file(), None);
    assert_eq!(state.consume_startup_file(), None);
}

#[test]
fn missing_recent_file_is_dropped_from_the_list() {
    let mut state = AppState::new(default_settings(), None);
    state.record_open("/tmp/keep.md");
    state.record_open("/tmp/gone.md");
    state.record_open_failure("/tmp/gone.md", &FileError::NotFound);
    assert_eq!(state.settings.recent_files, vec![String::from("/tmp/keep.md")]);
    // the current document is untouched by the failure
    assert_eq!(state.get_file_state().path, Some(String::from("/tmp/gone.md")));
}

#[test]
fn other_read_failures_leave_the_list_alone() {
    let mut state = AppState::new(default_settings(), None);
    state.record_open("/tmp/locked.md");
    state.record_open_failure("/tmp/locked.md", &FileError::Io(String::from("denied")));
    assert_eq!(state.settings.recent_files, vec![String::from("/tmp/locked.md")]);
}

#[test]
fn save_goes_to_the_current_file_or_asks_for_one() {
    let mut state = AppState::new(default_settings(), None);
    assert_eq!(state.save_target(), None);
    state.record_open("/tmp/a.md");
    assert_eq!(state.save_target(), Some(String::from("/tmp/a.md")));
}

#[test]
fn set_current_file_records_the_path_without_io() {
    let mut state = AppState::new(default_settings(), None);
    state.set_modified(true);
    let r = state.set_current_file(Some(String::from("/tmp/renamed.md")));
    assert_eq!(r, Some(String::from("/tmp/renamed.md")));
    let fs = state.get_file_state();
    assert_eq!(fs.path, Some(String::from("/tmp/renamed.md")));
    assert!(!fs.modified);
    assert_eq!(state.settings.recent_files, vec![String::from("/tmp/renamed.md")]);
    let cleared = state.set_current_file(None);
    assert_eq!(cleared, None);
    assert_eq!(state.get_file_state().filename, "Untitled");
}

#[test]
fn font_size_is_clamped_into_range() {
    assert_eq!(clamp_font_size(100), 32);
    assert_eq!(clamp_font_size(0), 8);
    assert_eq!(clamp_font_size(14), 14);
    let mut s = default_settings();
    assert_eq!(s.set_font_size(100), 32);
    assert_eq!(s.font_size, 32);
    assert_eq!(s.set_font_size(0), 8);
    assert_eq!(s.font_size, 8);
}

#[test]
fn word_wrap_toggles() {
    let mut s = default_settings();
    assert!(s.word_wrap);
    assert!(!s.toggle_word_wrap());
    assert!(s.toggle_word_wrap());
    s.set_word_wrap(false);
    assert!(!s.word_wrap);
}

#[test]
fn theme_is_stored_verbatim() {
    let mut s = default_settings();
    s.set_theme(String::from("light"));
    assert_eq!(s.theme, "light");
}

#[test]
fn geometry_is_recorded_for_the_next_run() {
    let mut state = AppState::new(default_settings(), None);
    state.record_geometry(1280, 720, 30, -10);
    assert_eq!(state.settings.window_width, 1280);
    assert_eq!(state.settings.window_height, 720);
    assert_eq!(state.settings.window_x, Some(30));
    assert_eq!(state.settings.window_y, Some(-10));
    let mut s2 = default_settings();
    s2.set_window_size(640, 480);
    s2.set_window_position(1, 2);
    assert_eq!(s2.window_width, 640);
    assert_eq!(s2.window_height, 480);
    assert_eq!(s2.window_x, Some(1));
    assert_eq!(s2.window_y, Some(2));
}

#[test]
fn position_is_restored_only_when_both_coordinates_exist() {
    let mut s = default_settings();
    assert_eq!(s.restore_position(), None);
    s.window_x = Some(7);
    assert_eq!(s.restore_position(), None);
    s.window_y = Some(9);
    assert_eq!(s.restore_position(), Some((7, 9)));
}

#[test]
fn error_kind_is_distinguishable() {
    assert!(FileError::NotFound.is_not_found());
    assert!(!FileError::TooLarge(11).is_not_found());
    assert!(!FileError::Io(String::from("disk full")).is_not_found());
}
