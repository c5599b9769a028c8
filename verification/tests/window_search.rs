use game_overlay::window::{locate_self_window, WindowEntry, WindowHandle, WindowSearch};

fn entry(raw: isize, owner_pid: u32) -> WindowEntry {
    WindowEntry { window: WindowHandle { raw }, owner_pid }
}

#[test]
fn first_window_of_the_process_is_located() {
    let windows = vec![entry(10, 1), entry(20, 7), entry(30, 7), entry(40, 2)];
    assert_eq!(locate_self_window(&windows, 7), Some(WindowHandle { raw: 20 }));
    assert_eq!(locate_self_window(&windows, 1), Some(WindowHandle { raw: 10 }));
    assert_eq!(locate_self_window(&windows, 2), Some(WindowHandle { raw: 40 }));
}

#[test]
fn no_window_of_the_process_is_no_window() {
    let windows = vec![entry(10, 1), entry(20, 7)];
    assert_eq!(locate_self_window(&windows, 3), None);
    assert_eq!(locate_self_window(&Vec::new(), 3), None);
}

#[test]
fn search_stops_at_the_first_match_and_keeps_it() {
    let mut search = WindowSearch::new(7);
    assert_eq!(search.found, None);
    assert!(search.visit(WindowHandle { raw: 10 }, 1));
    assert_eq!(search.found, None);
    assert!(!search.visit(WindowHandle { raw: 20 }, 7));
    assert_eq!(search.found, Some(WindowHandle { raw: 20 }));
    assert!(search.visit(WindowHandle { raw: 30 }, 7));
    assert_eq!(search.found, Some(WindowHandle { raw: 20 }));
    assert!(search.visit(WindowHandle { raw: 40 }, 2));
    assert_eq!(search.found, Some(WindowHandle { raw: 20 }));
    assert_eq!(search.target_pid, 7);
}
