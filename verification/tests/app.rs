use andinum_pod::app::App;
use andinum_pod::input::{Action, InputEvent, Key, KeyKind};
use andinum_pod::stats::MetricsError;
use andinum_pod::ui::{panel_for, Panel, FOOTER_HEIGHT, HEADER_HEIGHT};

const SECOND: u64 = 1_000_000_000;

fn press(key: Key) -> Option<InputEvent> {
    Some(InputEvent::Key { key, kind: KeyKind::Press })
}

#[test]
fn new_app_starts_on_the_info_tab() {
    let app = App::new("0.1.0", 3 * SECOND);
    assert_eq!(app.version, "0.1.0");
    assert_eq!(app.tabs.titles, vec!["Info", "Queue", "Settings"]);
    assert_eq!(app.tabs.index, 0);
    assert_eq!(app.info_stats.last_update, 3 * SECOND);
    assert!(app.info_stats.cpu_usage.is_empty());
    assert!(app.info_stats.mem_usage.is_empty());
    assert_eq!(app.panel(), Panel::Info);
}

#[test]
fn title_is_name_and_version() {
    assert_eq!(App::new("0.1.0", 0).title(), "Andinum POD v0.1.0");
    assert_eq!(App::new("", 0).title(), "Andinum POD v");
    assert_eq!(App::new("2.0.0-rc1", 0).title(), "Andinum POD v2.0.0-rc1");
}

#[test]
fn right_left_left_wraps_around() {
    let mut app = App::new("0.1.0", 0);
    assert!(!app.handle_events(press(Key::Right)));
    assert_eq!(app.tabs.index, 1);
    assert_eq!(app.tabs.titles[app.tabs.index], "Queue");
    assert!(!app.handle_events(press(Key::Left)));
    assert_eq!(app.tabs.index, 0);
    assert!(!app.handle_events(press(Key::Left)));
    assert_eq!(app.tabs.index, 2);
    assert_eq!(app.tabs.titles[app.tabs.index], "Settings");
}

#[test]
fn tab_key_moves_to_the_right() {
    let mut app = App::new("0.1.0", 0);
    assert!(!app.handle_events(press(Key::Tab)));
    assert_eq!(app.tabs.index, 1);
    assert!(!app.handle_events(press(Key::Tab)));
    assert!(!app.handle_events(press(Key::Tab)));
    assert_eq!(app.tabs.index, 0);
}

#[test]
fn h_and_l_leave_the_tab_alone() {
    let mut app = App::new("0.1.0", 0);
    app.tabs.index = 1;
    assert!(!app.handle_events(press(Key::Char('h'))));
    assert_eq!(app.tabs.index, 1);
    assert!(!app.handle_events(press(Key::Char('l'))));
    assert_eq!(app.tabs.index, 1);
}

#[test]
fn timed_out_poll_changes_nothing() {
    let mut app = App::new("0.1.0", 0);
    app.tabs.index = 1;
    app.info_stats.cpu_usage.push(45);
    assert!(!app.handle_events(None));
    assert_eq!(app.tabs.index, 1);
    assert_eq!(app.tabs.titles, vec!["Info", "Queue", "Settings"]);
    assert_eq!(app.info_stats.cpu_usage, vec![45]);
    assert!(app.info_stats.mem_usage.is_empty());
    assert_eq!(app.info_stats.last_update, 0);
    assert_eq!(app.version, "0.1.0");
}

#[test]
fn q_pressed_closes_and_q_released_does_not() {
    let mut app = App::new("0.1.0", 0);
    let released = Some(InputEvent::Key { key: Key::Char('q'), kind: KeyKind::Release });
    assert!(!app.handle_events(released));
    assert!(app.handle_events(press(Key::Char('q'))));
    assert_eq!(app.tabs.index, 0);
}

#[test]
fn keys_without_effect_leave_the_state_alone() {
    let mut app = App::new("0.1.0", 0);
    app.tabs.index = 2;
    let keys: [Key; 6] =
        [Key::Up, Key::Down, Key::Char('k'), Key::Char('j'), Key::Char('x'), Key::Other];
    for key in keys {
        assert!(!app.handle_events(press(key)));
        assert_eq!(app.tabs.index, 2);
        assert!(app.info_stats.cpu_usage.is_empty());
        assert_eq!(app.info_stats.last_update, 0);
    }
    assert!(!app.handle_events(Some(InputEvent::Other)));
    assert_eq!(app.tabs.index, 2);
}

#[test]
fn apply_carries_out_each_action() {
    let mut app = App::new("0.1.0", 0);
    assert!(!app.apply(Action::NextTab));
    assert_eq!(app.tabs.index, 1);
    assert!(!app.apply(Action::PreviousTab));
    assert_eq!(app.tabs.index, 0);
    assert!(!app.apply(Action::MoveUp));
    assert!(!app.apply(Action::MoveDown));
    assert!(!app.apply(Action::NoOp));
    assert!(!app.apply(Action::Custom('z')));
    assert_eq!(app.tabs.index, 0);
    assert!(app.apply(Action::Quit));
    assert_eq!(app.tabs.index, 0);
}

#[test]
fn on_left_and_on_right_move_only_when_allowed() {
    let mut app = App::new("0.1.0", 0);
    app.on_right(false);
    assert_eq!(app.tabs.index, 0);
    app.on_right(true);
    assert_eq!(app.tabs.index, 1);
    app.on_left(false);
    assert_eq!(app.tabs.index, 1);
    app.on_left(true);
    assert_eq!(app.tabs.index, 0);
    app.on_left(true);
    assert_eq!(app.tabs.index, 2);
    app.on_right(true);
    assert_eq!(app.tabs.index, 0);
}

#[test]
fn on_up_on_down_and_on_key_change_nothing() {
    let mut app = App::new("0.1.0", 0);
    app.tabs.index = 1;
    app.on_up();
    app.on_down();
    app.on_key('x');
    assert_eq!(app.tabs.index, 1);
    assert_eq!(app.version, "0.1.0");
    assert!(app.info_stats.cpu_usage.is_empty());
}

#[test]
fn header_and_footer_take_three_rows_each() {
    assert_eq!(HEADER_HEIGHT, 3);
    assert_eq!(FOOTER_HEIGHT, 3);
}

#[test]
fn panel_follows_the_selected_tab() {
    let mut app = App::new("0.1.0", 0);
    assert_eq!(app.panel(), Panel::Info);
    app.tabs.next();
    assert_eq!(app.panel(), Panel::Queue);
    app.tabs.next();
    assert_eq!(app.panel(), Panel::Settings);
    app.tabs.next();
    assert_eq!(app.panel(), Panel::Info);
}

#[test]
fn panel_beyond_the_known_tabs_is_blank() {
    assert_eq!(panel_for(0), Panel::Info);
    assert_eq!(panel_for(1), Panel::Queue);
    assert_eq!(panel_for(2), Panel::Settings);
    assert_eq!(panel_for(3), Panel::Blank);
    assert_eq!(panel_for(usize::MAX), Panel::Blank);
}

#[test]
fn sampling_is_due_only_on_the_info_tab() {
    let mut app = App::new("0.1.0", 0);
    assert!(!app.sampling_due(15 * SECOND - 1));
    assert!(app.sampling_due(15 * SECOND));
    app.tabs.next();
    assert!(!app.sampling_due(15 * SECOND));
    assert!(!app.sampling_due(1000 * SECOND));
    app.tabs.previous();
    assert!(app.sampling_due(1000 * SECOND));
}

#[test]
fn measurements_reach_the_history_on_the_info_tab() {
    let mut app = App::new("0.1.0", 0);
    app.maybe_sample(20 * SECOND, Ok(45), Ok(60));
    assert_eq!(app.info_stats.cpu_usage, vec![45]);
    assert_eq!(app.info_stats.mem_usage, vec![60]);
    assert_eq!(app.info_stats.last_update, 20 * SECOND);
    assert_eq!(app.tabs.index, 0);
    assert_eq!(app.version, "0.1.0");
}

#[test]
fn measurements_are_ignored_on_the_other_tabs() {
    let mut app = App::new("0.1.0", 0);
    app.tabs.next();
    app.maybe_sample(20 * SECOND, Ok(45), Ok(60));
    assert!(app.info_stats.cpu_usage.is_empty());
    assert!(app.info_stats.mem_usage.is_empty());
    assert_eq!(app.info_stats.last_update, 0);
    app.tabs.previous();
    app.maybe_sample(20 * SECOND, Ok(45), Err(MetricsError::Unavailable));
    assert_eq!(app.info_stats.cpu_usage, vec![45]);
    assert!(app.info_stats.mem_usage.is_empty());
    assert_eq!(app.info_stats.last_update, 20 * SECOND);
}

#[test]
fn a_session_of_renders_and_keys() {
    let mut app = App::new("0.1.0", 0);
    let mut now: u64 = 0;
    let mut frames: u32 = 0;
    let mut quit = false;
    while !quit {
        if app.sampling_due(now) {
            app.maybe_sample(now, Ok(12), Ok(34));
        }
        frames += 1;
        now += SECOND;
        let event = match frames {
            20 => press(Key::Right),
            40 => press(Key::Left),
            50 => press(Key::Char('q')),
            _ => None,
        };
        quit = app.handle_events(event);
    }
    assert_eq!(frames, 50);
    assert_eq!(app.tabs.index, 0);
    assert_eq!(app.info_stats.cpu_usage, vec![12, 12]);
    assert_eq!(app.info_stats.mem_usage, vec![34, 34]);
    assert_eq!(app.info_stats.last_update, 40 * SECOND);
}
