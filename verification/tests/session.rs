use save_point::session::Session;

fn session_on(items: &[&str]) -> Session {
    Session::new(items.iter().map(|s| s.to_string()).collect())
}

fn shown(session: &Session) -> Vec<&str> {
    session.paths().iter().map(|s| s.as_str()).collect()
}

#[test]
fn new_session_starts_on_the_first_line() {
    let session = session_on(&["/a", "/b", "/c"]);
    assert_eq!(shown(&session), vec!["/a", "/b", "/c"]);
    assert_eq!(session.selected(), 0);
    assert_eq!(session.selected_path(), Some(&String::from("/a")));
}

#[test]
fn empty_session_has_no_selected_path() {
    let session = session_on(&[]);
    assert_eq!(session.selected(), 0);
    assert_eq!(session.selected_path(), None);
}

#[test]
fn move_down_stops_on_the_last_line() {
    let mut session = session_on(&["/a", "/b", "/c"]);
    session.move_down();
    assert_eq!(session.selected(), 1);
    session.move_down();
    assert_eq!(session.selected(), 2);
    session.move_down();
    assert_eq!(session.selected(), 2);
    assert_eq!(session.selected_path(), Some(&String::from("/c")));
    assert_eq!(shown(&session), vec!["/a", "/b", "/c"]);
}

#[test]
fn move_up_stops_on_the_first_line() {
    let mut session = session_on(&["/a", "/b"]);
    session.move_up();
    assert_eq!(session.selected(), 0);
    session.move_down();
    session.move_up();
    assert_eq!(session.selected(), 0);
    session.move_up();
    assert_eq!(session.selected(), 0);
}

#[test]
fn moves_on_an_empty_list_do_nothing() {
    let mut session = session_on(&[]);
    session.move_down();
    assert_eq!(session.selected(), 0);
    session.move_up();
    assert_eq!(session.selected(), 0);
    assert!(session.paths().is_empty());
}

#[test]
fn moves_on_a_single_line_do_nothing() {
    let mut session = session_on(&["/only"]);
    session.move_down();
    assert_eq!(session.selected(), 0);
    session.move_up();
    assert_eq!(session.selected(), 0);
}

#[test]
fn add_appends_and_selects_the_last_line() {
    let mut session = session_on(&["/a", "/b"]);
    session.add(String::from("/c"));
    assert_eq!(shown(&session), vec!["/a", "/b", "/c"]);
    assert_eq!(session.selected(), 2);
    assert_eq!(session.selected_path(), Some(&String::from("/c")));
}

#[test]
fn add_to_an_empty_list() {
    let mut session = session_on(&[]);
    session.add(String::from("/here"));
    assert_eq!(shown(&session), vec!["/here"]);
    assert_eq!(session.selected(), 0);
}

#[test]
fn add_of_a_path_already_shown_appends_nothing() {
    let mut session = session_on(&["/a", "/b", "/c"]);
    session.add(String::from("/a"));
    assert_eq!(shown(&session), vec!["/a", "/b", "/c"]);
    assert_eq!(session.selected(), 2);
}

#[test]
fn adding_twice_gives_one_occurrence() {
    let mut session = session_on(&["/a"]);
    session.add(String::from("/cwd"));
    let after_one = shown(&session).iter().map(|s| s.to_string()).collect::<Vec<String>>();
    let selected_after_one = session.selected();
    session.add(String::from("/cwd"));
    assert_eq!(session.paths(), &after_one);
    assert_eq!(session.selected(), selected_after_one);
    assert_eq!(session.paths().iter().filter(|p| p.as_str() == "/cwd").count(), 1);
}

#[test]
fn add_does_not_remove_duplicates_that_were_loaded() {
    let mut session = session_on(&["x", "y", "x"]);
    session.add(String::from("x"));
    session.add(String::from("x"));
    assert_eq!(shown(&session), vec!["x", "y", "x"]);
    assert_eq!(session.selected(), 2);
}

#[test]
fn contains_scans_the_whole_list() {
    let session = session_on(&["/a", "/b", "/c"]);
    assert!(session.contains(&String::from("/a")));
    assert!(session.contains(&String::from("/c")));
    assert!(!session.contains(&String::from("/d")));
    assert!(!session.contains(&String::from("/")));
    assert!(!session_on(&[]).contains(&String::from("/a")));
}

#[test]
fn delete_in_the_middle_keeps_the_cursor() {
    let mut session = session_on(&["/a", "/b", "/c"]);
    session.move_down();
    session.delete_selected();
    assert_eq!(shown(&session), vec!["/a", "/c"]);
    assert_eq!(session.selected(), 1);
    assert_eq!(session.selected_path(), Some(&String::from("/c")));
}

#[test]
fn delete_of_the_last_line_pulls_the_cursor_back() {
    let mut session = session_on(&["/a", "/b", "/c"]);
    session.move_down();
    session.move_down();
    session.delete_selected();
    assert_eq!(shown(&session), vec!["/a", "/b"]);
    assert_eq!(session.selected(), 1);
}

#[test]
fn delete_of_the_only_line_empties_the_list() {
    let mut session = session_on(&["/a"]);
    session.delete_selected();
    assert!(session.paths().is_empty());
    assert_eq!(session.selected(), 0);
    assert_eq!(session.selected_path(), None);
}

#[test]
fn delete_on_an_empty_list_does_nothing() {
    let mut session = session_on(&[]);
    session.delete_selected();
    session.delete_selected();
    assert!(session.paths().is_empty());
    assert_eq!(session.selected(), 0);
}

#[test]
fn cursor_stays_in_bounds_through_adds_and_deletes() {
    let mut session = session_on(&[]);
    let names = ["/a", "/b", "/a", "/c", "/d", "/b"];
    for round in 0..4 {
        for name in names {
            session.add(name.to_string());
            assert!(session.selected() < session.paths().len());
            if round % 2 == 1 {
                session.move_up();
            }
        }
        while !session.paths().is_empty() {
            session.delete_selected();
            if session.paths().is_empty() {
                assert_eq!(session.selected(), 0);
            } else {
                assert!(session.selected() < session.paths().len());
            }
            if round >= 2 {
                session.move_up();
            }
        }
    }
}
