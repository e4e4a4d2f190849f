use andinum_pod::tabs::TabsState;

fn three_tabs() -> TabsState {
    TabsState::new(vec!["Info", "Queue", "Settings"])
}

#[test]
fn new_selects_the_first_title() {
    let tabs = three_tabs();
    assert_eq!(tabs.index, 0);
    assert_eq!(tabs.titles, vec!["Info", "Queue", "Settings"]);
}

#[test]
fn next_moves_one_to_the_right() {
    let mut tabs = three_tabs();
    tabs.next();
    assert_eq!(tabs.index, 1);
    tabs.next();
    assert_eq!(tabs.index, 2);
}

#[test]
fn next_wraps_from_the_last_to_the_first() {
    let mut tabs = three_tabs();
    tabs.index = 2;
    tabs.next();
    assert_eq!(tabs.index, 0);
}

#[test]
fn previous_wraps_from_the_first_to_the_last() {
    let mut tabs = three_tabs();
    tabs.previous();
    assert_eq!(tabs.index, 2);
}

#[test]
fn previous_moves_one_to_the_left() {
    let mut tabs = three_tabs();
    tabs.index = 2;
    tabs.previous();
    assert_eq!(tabs.index, 1);
    tabs.previous();
    assert_eq!(tabs.index, 0);
}

#[test]
fn next_as_often_as_there_are_titles_returns_to_the_start() {
    for len in 1..=7usize {
        for start in 0..len {
            let mut tabs = TabsState::new(vec!["tab"; len]);
            tabs.index = start;
            for _ in 0..len {
                tabs.next();
                assert!(tabs.index < len);
            }
            assert_eq!(tabs.index, start);
        }
    }
}

#[test]
fn previous_as_often_as_there_are_titles_returns_to_the_start() {
    for len in 1..=7usize {
        for start in 0..len {
            let mut tabs = TabsState::new(vec!["tab"; len]);
            tabs.index = start;
            for _ in 0..len {
                tabs.previous();
                assert!(tabs.index < len);
            }
            assert_eq!(tabs.index, start);
        }
    }
}

#[test]
fn previous_undoes_next() {
    for start in 0..3usize {
        let mut tabs = three_tabs();
        tabs.index = start;
        tabs.next();
        tabs.previous();
        assert_eq!(tabs.index, start);
        tabs.previous();
        tabs.next();
        assert_eq!(tabs.index, start);
    }
}

#[test]
fn a_bar_without_titles_does_not_move() {
    let mut tabs = TabsState::new(vec![]);
    assert_eq!(tabs.index, 0);
    tabs.next();
    assert_eq!(tabs.index, 0);
    tabs.previous();
    assert_eq!(tabs.index, 0);
    assert!(tabs.titles.is_empty());
}

#[test]
fn a_bar_with_one_title_stays_on_it() {
    let mut tabs = TabsState::new(vec!["Only"]);
    tabs.next();
    assert_eq!(tabs.index, 0);
    tabs.previous();
    assert_eq!(tabs.index, 0);
}

#[test]
fn navigation_keeps_the_titles() {
    let mut tabs = three_tabs();
    tabs.next();
    tabs.previous();
    tabs.previous();
    assert_eq!(tabs.titles, vec!["Info", "Queue", "Settings"]);
}

#[test]
fn next_from_beyond_the_titles_lands_inside() {
    let mut tabs = three_tabs();
    tabs.index = 7;
    tabs.next();
    assert_eq!(tabs.index, 2);
    tabs.index = usize::MAX;
    tabs.next();
    let expected: usize = (usize::MAX % 3 + 1) % 3;
    assert_eq!(tabs.index, expected);
}
