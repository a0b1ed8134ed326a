use kopuz::channel::Outbox;
use kopuz::event::SystemEvent;
use kopuz::icons::{
    find_toolbar_icon, icon_file_name, terminated, IconBase, IconRoot, TaskbarIconKind,
};
use kopuz::taskbar::{
    call_taskbar_prev_wndproc, click_event, install_taskbar_subclass, record_subclass,
    setup_taskbar_buttons, taskbar_button, taskbar_wndproc, ButtonStage, SubclassAction,
    WndProcReply, WndProcTarget, TASKBAR_NEXT_ID, TASKBAR_PLAY_PAUSE_ID, TASKBAR_PREV_ID,
    THBN_CLICKED, WM_COMMAND,
};
use kopuz::text::{encode_char, fill_tip, starts_with};
use kopuz::window::{create_message_window, ShellState, HWND_MESSAGE};
use tokio::sync::mpsc::unbounded_channel;

fn click(id: u32) -> usize {
    ((THBN_CLICKED as usize) << 16) | id as usize
}

#[test]
fn clicks_stand_for_events() {
    assert_eq!(click_event(WM_COMMAND, click(TASKBAR_PREV_ID)), Some(SystemEvent::Prev));
    assert_eq!(click_event(WM_COMMAND, click(TASKBAR_PLAY_PAUSE_ID)), Some(SystemEvent::Toggle));
    assert_eq!(click_event(WM_COMMAND, click(TASKBAR_NEXT_ID)), Some(SystemEvent::Next));
    assert_eq!(click_event(WM_COMMAND, 0x1800_4b02), Some(SystemEvent::Toggle));
}

#[test]
fn other_messages_stand_for_nothing() {
    assert_eq!(click_event(WM_COMMAND, click(0x4b00)), None);
    assert_eq!(click_event(WM_COMMAND, click(0x4b04)), None);
    assert_eq!(click_event(WM_COMMAND, TASKBAR_PREV_ID as usize), None);
    assert_eq!(click_event(0x0112, click(TASKBAR_PREV_ID)), None);
}

#[test]
fn bits_above_the_two_words_are_ignored() {
    if usize::BITS == 64 {
        let wparam = click(TASKBAR_NEXT_ID) | (0xabcdusize << 32);
        assert_eq!(click_event(WM_COMMAND, wparam), Some(SystemEvent::Next));
    }
}

#[test]
fn window_procedure_posts_or_forwards() {
    let (tx, mut rx) = unbounded_channel();
    let mut outbox = Outbox::new(tx);
    let mut shell = ShellState::new();
    assert_eq!(
        taskbar_wndproc(&shell, &mut outbox, WM_COMMAND, click(TASKBAR_NEXT_ID)),
        WndProcReply::Handled(SystemEvent::Next)
    );
    assert_eq!(rx.try_recv().ok(), Some(SystemEvent::Next));
    assert_eq!(
        taskbar_wndproc(&shell, &mut outbox, WM_COMMAND, 5),
        WndProcReply::Forward(WndProcTarget::Default)
    );
    record_subclass(&mut shell, 10, 99);
    assert_eq!(
        taskbar_wndproc(&shell, &mut outbox, 1, click(TASKBAR_NEXT_ID)),
        WndProcReply::Forward(WndProcTarget::Previous(99))
    );
    assert!(rx.try_recv().is_err());
    // Clicks are taken even when nobody listens.
    drop(rx);
    assert_eq!(
        taskbar_wndproc(&shell, &mut outbox, WM_COMMAND, click(TASKBAR_PREV_ID)),
        WndProcReply::Handled(SystemEvent::Prev)
    );
}

#[test]
fn one_window_is_subclassed() {
    let mut shell = ShellState::new();
    assert_eq!(install_taskbar_subclass(&shell, 0), SubclassAction::Keep);
    assert_eq!(install_taskbar_subclass(&shell, 10), SubclassAction::Replace);
    // The system refused: it is tried again.
    record_subclass(&mut shell, 10, 0);
    assert_eq!(shell, ShellState::new());
    assert_eq!(install_taskbar_subclass(&shell, 10), SubclassAction::Replace);
    record_subclass(&mut shell, 10, 99);
    assert_eq!(install_taskbar_subclass(&shell, 10), SubclassAction::Keep);
    assert_eq!(install_taskbar_subclass(&shell, 11), SubclassAction::ReportOtherWindow);
    assert_eq!(install_taskbar_subclass(&shell, 0), SubclassAction::Keep);
    assert_eq!(call_taskbar_prev_wndproc(&shell), WndProcTarget::Previous(99));
}

#[test]
fn utf16_of_characters() {
    assert_eq!(encode_char('A'), (0x41, None));
    assert_eq!(encode_char('\u{ffff}'), (0xffff, None));
    assert_eq!(encode_char('\u{10000}'), (0xd800, Some(0xdc00)));
    assert_eq!(encode_char('\u{1f600}'), (0xd83d, Some(0xde00)));
    assert_eq!(encode_char('\u{10ffff}'), (0xdbff, Some(0xdfff)));
}

#[test]
fn tips_match_the_standard_encoding() {
    for text in ["", "Play", "größe", "音楽", "a\u{1f600}b"] {
        let mut buf = [0xeeeeu16; 260];
        fill_tip(&mut buf, text);
        let units: Vec<u16> = text.encode_utf16().collect();
        assert_eq!(&buf[..units.len()], &units[..]);
        assert!(buf[units.len()..].iter().all(|u| *u == 0xeeee));
    }
}

#[test]
fn long_tips_are_cut_off() {
    let mut buf = [0u16; 260];
    fill_tip(&mut buf, &"x".repeat(300));
    assert!(buf[..259].iter().all(|u| *u == 'x' as u16));
    assert_eq!(buf[259], 0);
    // A pair of units can be split.
    let mut split = [0u16; 260];
    fill_tip(&mut split, &format!("{}\u{1f600}", "x".repeat(258)));
    assert_eq!(split[258], 0xd83d);
    assert_eq!(split[259], 0);
}

#[test]
fn button_description() {
    let button = taskbar_button(0x4b02, 77, "Play");
    assert_eq!(button.mask, 14);
    assert_eq!(button.id, 0x4b02);
    assert_eq!(button.bitmap, 0);
    assert_eq!(button.icon, 77);
    assert_eq!(button.flags, 0);
    let mut tip = [0u16; 260];
    tip[..4].copy_from_slice(&[0x50, 0x6c, 0x61, 0x79]);
    assert_eq!(button.tip, tip);
}

fn tip_text(tip: &[u16; 260]) -> String {
    let end = tip.iter().position(|u| *u == 0).unwrap_or(260);
    String::from_utf16_lossy(&tip[..end])
}

#[test]
fn toolbar_is_added_then_updated() {
    let mut shell = ShellState::new();
    for (round, playing) in [(0, true), (1, false)] {
        let mut setup = setup_taskbar_buttons(&shell, 10, playing);
        let mut stages = Vec::new();
        let mut handle = 100;
        while setup.stage != ButtonStage::Done {
            stages.push(setup.stage);
            handle += 1;
            setup.advance(&mut shell, Some(handle));
        }
        let middle = if playing { TaskbarIconKind::Pause } else { TaskbarIconKind::Play };
        let last = if round == 0 { ButtonStage::AddButtons } else { ButtonStage::UpdateButtons };
        assert_eq!(
            stages,
            vec![
                ButtonStage::InstallSubclass,
                ButtonStage::AcquireLock,
                ButtonStage::OpenTaskbarList,
                ButtonStage::LoadIcon(TaskbarIconKind::Previous),
                ButtonStage::LoadIcon(middle),
                ButtonStage::LoadIcon(TaskbarIconKind::Next),
                last,
            ]
        );
        assert!(shell.buttons_added);
        let buttons = setup.buttons();
        assert_eq!(
            [buttons[0].id, buttons[1].id, buttons[2].id],
            [TASKBAR_PREV_ID, TASKBAR_PLAY_PAUSE_ID, TASKBAR_NEXT_ID]
        );
        assert_eq!([buttons[0].icon, buttons[1].icon, buttons[2].icon], [104, 105, 106]);
        assert_eq!(tip_text(&buttons[0].tip), "Previous");
        assert_eq!(tip_text(&buttons[1].tip), if playing { "Pause" } else { "Play" });
        assert_eq!(tip_text(&buttons[2].tip), "Next");
    }
}

#[test]
fn refused_toolbar_is_added_again() {
    let mut shell = ShellState::new();
    let mut submitted = Vec::new();
    for taken in [false, true, false, true] {
        let mut setup = setup_taskbar_buttons(&shell, 10, true);
        while setup.stage != ButtonStage::Done {
            let submits =
                matches!(setup.stage, ButtonStage::AddButtons | ButtonStage::UpdateButtons);
            if submits {
                submitted.push(setup.stage);
            }
            setup.advance(&mut shell, if submits && !taken { None } else { Some(1) });
        }
    }
    assert_eq!(
        submitted,
        vec![
            ButtonStage::AddButtons,
            ButtonStage::AddButtons,
            ButtonStage::UpdateButtons,
            ButtonStage::UpdateButtons,
        ]
    );
    assert!(shell.buttons_added);
}

fn stage_after(outcomes: &[Option<isize>]) -> (ButtonStage, bool) {
    let mut shell = ShellState::new();
    let mut setup = setup_taskbar_buttons(&shell, 10, false);
    for outcome in outcomes {
        setup.advance(&mut shell, *outcome);
    }
    (setup.stage, shell.buttons_added)
}

#[test]
fn failures_end_the_setup() {
    let ok = Some(1);
    assert_eq!(stage_after(&[None]), (ButtonStage::AcquireLock, false));
    assert_eq!(stage_after(&[ok, None]), (ButtonStage::Done, false));
    assert_eq!(stage_after(&[ok, ok, None]), (ButtonStage::ReportFailure, false));
    assert_eq!(stage_after(&[ok, ok, None, ok]), (ButtonStage::Done, false));
    assert_eq!(stage_after(&[ok, ok, ok, None]), (ButtonStage::Done, false));
    assert_eq!(stage_after(&[ok, ok, ok, ok, None]), (ButtonStage::Done, false));
    assert_eq!(stage_after(&[ok, ok, ok, ok, ok, None]), (ButtonStage::Done, false));
    assert_eq!(stage_after(&[None, ok, ok, ok, ok, ok]), (ButtonStage::AddButtons, false));
    assert_eq!(stage_after(&[ok, ok, ok, ok, ok, ok, None]), (ButtonStage::ReportFailure, false));
    assert_eq!(stage_after(&[ok, ok, ok, ok, ok, ok, ok]), (ButtonStage::Done, true));
}

#[test]
fn windows_without_toolbar() {
    let mut shell = ShellState::new();
    assert_eq!(create_message_window(&mut shell, Some(42)), Some(42));
    for hwnd in [0, HWND_MESSAGE, 42] {
        assert_eq!(setup_taskbar_buttons(&shell, hwnd, true).stage, ButtonStage::Done);
    }
    assert_eq!(setup_taskbar_buttons(&shell, 43, true).stage, ButtonStage::InstallSubclass);
}

#[test]
fn icon_files() {
    assert_eq!(icon_file_name(TaskbarIconKind::Previous), "backward-step-solid-full.ico");
    assert_eq!(icon_file_name(TaskbarIconKind::Play), "play-solid-full.ico");
    assert_eq!(icon_file_name(TaskbarIconKind::Pause), "pause-solid-full.ico");
    assert_eq!(icon_file_name(TaskbarIconKind::Next), "forward-step-solid-full.ico");
}

fn directories(exe: bool, current: bool) -> Vec<IconBase> {
    let mut search = find_toolbar_icon(exe, current);
    let mut bases = Vec::new();
    while let Some(base) = search.candidate() {
        bases.push(base);
        search.reject();
    }
    search.reject();
    assert_eq!(search.candidate(), None);
    bases
}

#[test]
fn icon_directories_in_order() {
    assert_eq!(
        directories(true, true),
        vec![
            IconBase::ExeAssets,
            IconBase::ExeKopuzAssets,
            IconBase::CurrentAssets,
            IconBase::CurrentKopuzAssets,
            IconBase::PackageAssets,
        ]
    );
    assert_eq!(
        directories(false, true),
        vec![IconBase::CurrentAssets, IconBase::CurrentKopuzAssets, IconBase::PackageAssets]
    );
    assert_eq!(
        directories(true, false),
        vec![IconBase::ExeAssets, IconBase::ExeKopuzAssets, IconBase::PackageAssets]
    );
    assert_eq!(directories(false, false), vec![IconBase::PackageAssets]);
}

#[test]
fn icon_directory_paths() {
    assert_eq!(IconBase::ExeAssets.root(), IconRoot::ExeDir);
    assert_eq!(IconBase::CurrentKopuzAssets.root(), IconRoot::CurrentDir);
    assert_eq!(IconBase::PackageAssets.root(), IconRoot::PackageDir);
    assert_eq!(IconBase::ExeAssets.components(), vec!["assets", "toolbar_icons"]);
    assert_eq!(
        IconBase::CurrentKopuzAssets.components(),
        vec!["kopuz", "assets", "toolbar_icons"]
    );
    assert_eq!(
        IconBase::PackageAssets.components(),
        vec!["..", "kopuz", "assets", "toolbar_icons"]
    );
}

#[test]
fn wide_paths_are_terminated() {
    assert_eq!(terminated(vec![0x43, 0x3a]), vec![0x43, 0x3a, 0]);
    assert_eq!(terminated(vec![]), vec![0]);
}

#[test]
fn prefixes() {
    assert!(starts_with("http://x", "http://"));
    assert!(starts_with("abc", ""));
    assert!(starts_with("音楽", "音"));
    assert!(!starts_with("ab", "abc"));
    assert!(!starts_with("HTTP://x", "http://"));
}
