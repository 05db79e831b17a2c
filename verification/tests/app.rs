use sequisat::app::{App, Key};
use sequisat::ui_state::{Message, MessageType};

fn files(names: &[&str]) -> Vec<String> {
    names.iter().map(|n| n.to_string()).collect()
}

#[test]
fn new_app_defaults() {
    let a = App::new("SEQUISAT", files(&["iss.tle", "noaa.tle"]));
    assert_eq!(a.title, "SEQUISAT");
    assert_eq!(a.tle_list.items, files(&["iss.tle", "noaa.tle"]));
    assert_eq!(a.tle_list.state.selected(), Some(0));
    assert_eq!(
        a.tabs.titles,
        vec!["Map Projection", "Azimuthal Projection", "About"]
    );
    assert_eq!(a.tabs.index, 0);
    assert!(!a.should_quit);
    assert!(!a.input_mode);
    assert!(a.buffer.is_empty());
    assert!(a.get_messages().is_empty());
}

#[test]
fn initialize_picks_first_file() {
    let mut a = App::new("t", files(&["iss.tle", "noaa.tle"]));
    assert_eq!(a.initialize(), Some("iss.tle".to_string()));
    assert!(a.get_messages().is_empty());
}

#[test]
fn initialize_without_files_reports_error() {
    let mut a = App::new("t", Vec::new());
    assert_eq!(a.initialize(), None);
    assert_eq!(a.get_messages().len(), 1);
    let m = &a.get_messages()[0];
    assert!(matches!(m.get_type(), MessageType::Error));
    assert_eq!(m.get_message().as_str(), "No TLE files found");
}

#[test]
fn up_and_down_cycle_the_file_list() {
    let mut a = App::new("t", files(&["a.tle", "b.tle", "c.tle"]));
    assert_eq!(a.on_down(), "b.tle");
    assert_eq!(a.on_down(), "c.tle");
    assert_eq!(a.on_down(), "a.tle");
    assert_eq!(a.on_up(), "c.tle");
    assert_eq!(a.tle_list.state.selected(), Some(2));
}

#[test]
fn left_and_right_switch_tabs() {
    let mut a = App::new("t", Vec::new());
    a.on_right();
    assert_eq!(a.tabs.index, 1);
    a.on_left();
    assert_eq!(a.tabs.index, 0);
    a.on_left();
    assert_eq!(a.tabs.index, 2);
}

#[test]
fn normal_mode_keys() {
    let mut a = App::new("t", Vec::new());
    a.on_key_normal(Key::Char('x'));
    assert!(!a.should_quit && !a.input_mode);
    a.on_key_normal(Key::Char('c'));
    assert!(a.input_mode);
    a.on_key_normal(Key::Char('q'));
    assert!(a.should_quit);
}

#[test]
fn enter_in_normal_mode_pops_latest_message() {
    let mut a = App::new("t", Vec::new());
    a.push_message(Message::new(MessageType::Info, "one".to_string()));
    a.push_message(Message::new(MessageType::Error, "two".to_string()));
    a.on_key_normal(Key::Enter);
    assert_eq!(a.get_messages().len(), 1);
    assert_eq!(a.get_messages()[0].get_message().as_str(), "one");
    a.on_key_normal(Key::Enter);
    assert!(a.get_messages().is_empty());
    a.on_key_normal(Key::Enter);
    assert!(a.get_messages().is_empty());
}

#[test]
fn input_mode_edits_buffer_and_submits_on_enter() {
    let mut a = App::new("t", Vec::new());
    a.on_key_normal(Key::Char('c'));
    assert!(a.input_mode);
    for ch in "12 3".chars() {
        assert_eq!(a.on_key_input(Key::Char(ch)), None);
    }
    assert_eq!(a.on_key_input(Key::Backspace), None);
    assert_eq!(a.buffer, vec!['1', '2', ' ']);
    let submitted = a.on_key_input(Key::Enter);
    assert_eq!(submitted, Some(vec!['1', '2', ' ']));
    assert!(!a.input_mode);
    assert!(a.buffer.is_empty());
}

#[test]
fn backspace_on_empty_buffer_is_harmless() {
    let mut a = App::new("t", Vec::new());
    assert_eq!(a.on_key_input(Key::Backspace), None);
    assert!(a.buffer.is_empty());
    assert_eq!(a.on_key_input(Key::Other), None);
    assert!(a.buffer.is_empty());
}
