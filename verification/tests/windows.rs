use kopuz::window::{
    create_message_window, enum_proc, find_main_hwnd, is_message_only_window, EnumData, ShellState,
    WindowChoice,
};

fn search(pid: u32, windows: &[(isize, u32, bool)]) -> (WindowChoice, usize) {
    let mut data = EnumData::new(pid);
    let mut seen = 0;
    for (hwnd, owner, visible) in windows {
        seen += 1;
        if !enum_proc(&mut data, *hwnd, *owner, *visible) {
            break;
        }
    }
    (find_main_hwnd(&data), seen)
}

#[test]
fn first_visible_window_wins_and_ends_the_search() {
    let windows = [(1, 9, true), (2, 7, false), (3, 7, true), (4, 7, true)];
    assert_eq!(search(7, &windows), (WindowChoice::Existing(3), 3));
}

#[test]
fn first_hidden_window_is_the_fallback() {
    let windows = [(1, 9, true), (2, 7, false), (3, 7, false)];
    assert_eq!(search(7, &windows), (WindowChoice::Existing(2), 3));
}

#[test]
fn message_window_is_made_when_the_process_has_none() {
    assert_eq!(search(7, &[(1, 9, true), (2, 8, false)]), (WindowChoice::CreateMessageWindow, 2));
    assert_eq!(search(7, &[]), (WindowChoice::CreateMessageWindow, 0));
}

#[test]
fn null_handles_are_passed_over() {
    assert_eq!(search(7, &[(0, 7, false), (5, 7, false)]), (WindowChoice::Existing(5), 2));
    assert_eq!(search(7, &[(5, 7, false), (0, 7, true)]), (WindowChoice::Existing(5), 2));
}

#[test]
fn enum_proc_records() {
    let mut data = EnumData::new(7);
    assert_eq!(data, EnumData { pid: 7, hwnd: 0, any_hwnd: 0 });
    assert!(enum_proc(&mut data, 11, 7, false));
    assert_eq!(data, EnumData { pid: 7, hwnd: 0, any_hwnd: 11 });
    assert!(enum_proc(&mut data, 12, 7, false));
    assert_eq!(data, EnumData { pid: 7, hwnd: 0, any_hwnd: 11 });
    assert!(enum_proc(&mut data, 13, 8, true));
    assert_eq!(data, EnumData { pid: 7, hwnd: 0, any_hwnd: 11 });
    assert!(!enum_proc(&mut data, 14, 7, true));
    assert_eq!(data, EnumData { pid: 7, hwnd: 14, any_hwnd: 11 });
}

#[test]
fn message_window_outcomes() {
    let mut shell = ShellState::new();
    assert_eq!(create_message_window(&mut shell, None), None);
    assert_eq!(create_message_window(&mut shell, Some(0)), None);
    assert_eq!(shell, ShellState::new());
    assert_eq!(create_message_window(&mut shell, Some(42)), Some(42));
    assert_eq!(shell.message_only_hwnd, 42);
    assert!(is_message_only_window(&shell, 42));
    assert!(!is_message_only_window(&shell, 43));
}

#[test]
fn null_is_never_message_only() {
    assert!(!is_message_only_window(&ShellState::new(), 0));
}
