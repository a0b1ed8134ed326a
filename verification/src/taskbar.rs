//! The thumbnail toolbar that the taskbar shows for the player's window.
use crate::channel::Outbox;
use crate::event::{self, post_event, SystemEvent};
use crate::icons::TaskbarIconKind;
use crate::text::{self, fill_tip};
use crate::window::{is_message_only_window, ShellState, HWND_MESSAGE};
use vstd::prelude::*;

verus! {

/// The command numbers of the toolbar buttons.
pub const TASKBAR_PREV_ID: u32 = 0x4b01;

pub const TASKBAR_PLAY_PAUSE_ID: u32 = 0x4b02;

pub const TASKBAR_NEXT_ID: u32 = 0x4b03;

/// The window message that reports a command.
pub const WM_COMMAND: u32 = 0x0111;

/// The notification code of a click on a toolbar button.
pub const THBN_CLICKED: u32 = 0x1800;

/// The parts of a button description that are filled in: icon, tooltip, flags.
pub const THB_ICON: i32 = 2;

pub const THB_TOOLTIP: i32 = 4;

pub const THB_FLAGS: i32 = 8;

/// The flags of a button that can be clicked.
pub const THBF_ENABLED: i32 = 0;

/// The low word of a message parameter.
pub open spec fn low_word(wparam: usize) -> int {
    wparam as int % 0x1_0000
}

/// The word above the low word of a message parameter.
pub open spec fn high_word(wparam: usize) -> int {
    (wparam as int / 0x1_0000) % 0x1_0000
}

/// The event that a toolbar button stands for.
pub open spec fn command_event(command_id: int) -> Option<SystemEvent> {
    if command_id == TASKBAR_PREV_ID {
        Some(SystemEvent::Prev)
    } else if command_id == TASKBAR_PLAY_PAUSE_ID {
        Some(SystemEvent::Toggle)
    } else if command_id == TASKBAR_NEXT_ID {
        Some(SystemEvent::Next)
    } else {
        None
    }
}

/// The event that a window message stands for: only a click on one of the
/// toolbar buttons stands for any.
pub open spec fn click_event_spec(msg: u32, wparam: usize) -> Option<SystemEvent> {
    if msg == WM_COMMAND && high_word(wparam) == THBN_CLICKED {
        command_event(low_word(wparam))
    } else {
        None
    }
}

/// The event that a window message stands for.
pub fn click_event(msg: u32, wparam: usize) -> (event: Option<SystemEvent>)
    ensures
        event == click_event_spec(msg, wparam),
        event == Some(SystemEvent::Prev) <==> msg == 0x0111
            && (wparam as int / 0x1_0000) % 0x1_0000 == 0x1800 && wparam as int % 0x1_0000 == 0x4b01,
        event == Some(SystemEvent::Toggle) <==> msg == 0x0111
            && (wparam as int / 0x1_0000) % 0x1_0000 == 0x1800 && wparam as int % 0x1_0000 == 0x4b02,
        event == Some(SystemEvent::Next) <==> msg == 0x0111
            && (wparam as int / 0x1_0000) % 0x1_0000 == 0x1800 && wparam as int % 0x1_0000 == 0x4b03,
        event is Some <==> msg == 0x0111 && (wparam as int / 0x1_0000) % 0x1_0000
            == 0x1800 && 0x4b01 <= wparam as int % 0x1_0000 <= 0x4b03,
{
    if msg == WM_COMMAND {
        assert(wparam & 0xffff == wparam % 0x1_0000) by (bit_vector);
        assert((wparam >> 16) & 0xffff == (wparam / 0x1_0000) % 0x1_0000) by (bit_vector);
        let command_id: u32 = (wparam & 0xffff) as u32;
        let notification_code: u32 = ((wparam >> 16) & 0xffff) as u32;
        if notification_code == THBN_CLICKED {
            return match command_id {
                TASKBAR_PREV_ID => Some(SystemEvent::Prev),
                TASKBAR_PLAY_PAUSE_ID => Some(SystemEvent::Toggle),
                TASKBAR_NEXT_ID => Some(SystemEvent::Next),
                _ => None,
            };
        }
    }
    None
}

/// Who handles a window message that is not for the toolbar.
#[derive(Debug, Clone, Copy, PartialEq, Eq, Structural)]
pub enum WndProcTarget {
    /// The system's default window procedure.
    Default,
    /// The window procedure that was replaced.
    Previous(isize),
}

/// The window procedure to pass messages on to.
pub open spec fn prev_target(shell: ShellState) -> WndProcTarget {
    if shell.prev_wndproc == 0 {
        WndProcTarget::Default
    } else {
        WndProcTarget::Previous(shell.prev_wndproc)
    }
}

/// The window procedure to pass messages on to.
pub fn call_taskbar_prev_wndproc(shell: &ShellState) -> (target: WndProcTarget)
    ensures
        target == prev_target(*shell),
        shell.prev_wndproc == 0 ==> target == WndProcTarget::Default,
        shell.prev_wndproc != 0 ==> target == WndProcTarget::Previous(shell.prev_wndproc),
{
    if shell.prev_wndproc == 0 {
        WndProcTarget::Default
    } else {
        WndProcTarget::Previous(shell.prev_wndproc)
    }
}

/// How a window message is answered.
#[derive(Debug, Clone, Copy, PartialEq, Eq, Structural)]
pub enum WndProcReply {
    /// The message was a click that stands for this event, which was sent.
    Handled(SystemEvent),
    /// The message goes to another window procedure.
    Forward(WndProcTarget),
}

/// Handles a message to the player's window: sends the event that it stands
/// for, or passes it on. A closed event channel is ignored.
pub fn taskbar_wndproc(
    shell: &ShellState,
    outbox: &mut Outbox<SystemEvent>,
    msg: u32,
    wparam: usize,
) -> (reply: WndProcReply)
    ensures
        reply == (match click_event_spec(msg, wparam) {
            Some(event) => WndProcReply::Handled(event),
            None => WndProcReply::Forward(prev_target(*shell)),
        }),
        final(outbox).channel() == old(outbox).channel(),
        final(outbox).sent() == event::sent_with(
            old(outbox).sent(),
            click_event_spec(msg, wparam),
        ),
        click_event_spec(msg, wparam) is None ==> final(outbox).refused() == old(
            outbox,
        ).refused(),
        reply == WndProcReply::Handled(SystemEvent::Prev) <==> msg == 0x0111
            && (wparam as int / 0x1_0000) % 0x1_0000 == 0x1800 && wparam as int % 0x1_0000 == 0x4b01,
        reply == WndProcReply::Handled(SystemEvent::Toggle) <==> msg == 0x0111
            && (wparam as int / 0x1_0000) % 0x1_0000 == 0x1800 && wparam as int % 0x1_0000 == 0x4b02,
        reply == WndProcReply::Handled(SystemEvent::Next) <==> msg == 0x0111
            && (wparam as int / 0x1_0000) % 0x1_0000 == 0x1800 && wparam as int % 0x1_0000 == 0x4b03,
        reply is Handled <==> msg == 0x0111 && (wparam as int / 0x1_0000) % 0x1_0000
            == 0x1800 && 0x4b01 <= wparam as int % 0x1_0000 <= 0x4b03,
        reply matches WndProcReply::Handled(event) ==> final(outbox).sent() == old(
            outbox,
        ).sent().push(event),
        reply matches WndProcReply::Forward(target) ==> {
            &&& final(outbox).sent() == old(outbox).sent()
            &&& final(outbox).refused() == old(outbox).refused()
            &&& shell.prev_wndproc == 0 ==> target == WndProcTarget::Default
            &&& shell.prev_wndproc != 0 ==> target == WndProcTarget::Previous(shell.prev_wndproc)
        },
{
    match click_event(msg, wparam) {
        Some(event) => {
            let _ = post_event(outbox, event);
            WndProcReply::Handled(event)
        },
        None => WndProcReply::Forward(call_taskbar_prev_wndproc(shell)),
    }
}

/// What to do about the window procedure of a window.
#[derive(Debug, Clone, Copy, PartialEq, Eq, Structural)]
pub enum SubclassAction {
    /// Leave it: there is no window, or it was replaced before.
    Keep,
    /// Leave it and report that another window has the toolbar.
    ReportOtherWindow,
    /// Replace it.
    Replace,
}

/// What to do about the window procedure of a window.
pub open spec fn subclass_action(shell: ShellState, hwnd: isize) -> SubclassAction {
    if hwnd == 0 || shell.subclassed_hwnd == hwnd {
        SubclassAction::Keep
    } else if shell.subclassed_hwnd != 0 {
        SubclassAction::ReportOtherWindow
    } else {
        SubclassAction::Replace
    }
}

/// Decides what to do about the window procedure of a window.
pub fn install_taskbar_subclass(shell: &ShellState, hwnd: isize) -> (action: SubclassAction)
    ensures
        action == subclass_action(*shell, hwnd),
        action == SubclassAction::Keep <==> hwnd == 0 || shell.subclassed_hwnd == hwnd,
        action == SubclassAction::Replace <==> hwnd != 0 && shell.subclassed_hwnd == 0,
        action == SubclassAction::ReportOtherWindow <==> hwnd != 0 && shell.subclassed_hwnd != 0
            && shell.subclassed_hwnd != hwnd,
{
    if hwnd == 0 {
        return SubclassAction::Keep;
    }
    if shell.subclassed_hwnd == hwnd {
        return SubclassAction::Keep;
    }
    if shell.subclassed_hwnd != 0 {
        return SubclassAction::ReportOtherWindow;
    }
    SubclassAction::Replace
}

/// The state once the replacement of a window procedure has ended; `prev` is
/// the former procedure, and zero when the system refused.
pub open spec fn subclassed(shell: ShellState, hwnd: isize, prev: isize) -> ShellState {
    if prev != 0 {
        ShellState { prev_wndproc: prev, subclassed_hwnd: hwnd, ..shell }
    } else {
        shell
    }
}

/// Records the outcome of replacing a window procedure.
pub fn record_subclass(shell: &mut ShellState, hwnd: isize, prev: isize)
    ensures
        *final(shell) == subclassed(*old(shell), hwnd, prev),
        old(shell).well_formed() && hwnd != 0 ==> final(shell).well_formed(),
        prev != 0 ==> final(shell).prev_wndproc == prev && final(shell).subclassed_hwnd == hwnd,
        prev == 0 ==> *final(shell) == *old(shell),
        final(shell).message_only_hwnd == old(shell).message_only_hwnd,
        final(shell).buttons_added == old(shell).buttons_added,
{
    if prev != 0 {
        shell.prev_wndproc = prev;
        shell.subclassed_hwnd = hwnd;
    }
}

/// The description of a toolbar button.
#[derive(Debug, Clone, Copy)]
pub struct ThumbButton {
    /// Which of the following parts are filled in.
    pub mask: i32,
    pub id: u32,
    pub bitmap: u32,
    pub icon: isize,
    /// The tooltip in UTF-16, ended by a null unit.
    pub tip: [u16; 260],
    pub flags: i32,
}

/// The contents of a tooltip buffer for a text: as much of it as fits, then
/// null units.
pub open spec fn tip_buffer(text: Seq<char>) -> Seq<u16> {
    let units = text::utf16_prefix(text, 259);
    units + Seq::new((260 - units.len()) as nat, |i: int| 0u16)
}

/// Whether a button has the given number, icon and tooltip, and is enabled.
pub open spec fn is_button(button: ThumbButton, id: u32, icon: isize, tip: Seq<char>) -> bool {
    &&& button.mask == 14
    &&& button.id == id
    &&& button.bitmap == 0
    &&& button.icon == icon
    &&& button.tip@ == tip_buffer(tip)
    &&& button.flags == THBF_ENABLED
}

/// Describes an enabled toolbar button with an icon and a tooltip.
pub fn taskbar_button(id: u32, icon: isize, tip: &str) -> (button: ThumbButton)
    ensures
        is_button(button, id, icon, tip@),
        button.mask == 14,
        button.id == id,
        button.bitmap == 0,
        button.icon == icon,
        button.flags == 0,
        forall|i: int|
            0 <= i < 260 ==> #[trigger] button.tip@[i] == (if i < 259 && i
                < text::utf16(tip@).len() {
                text::utf16(tip@)[i]
            } else {
                0u16
            }),
{
    let mut buffer: [u16; 260] = [0u16; 260];
    let ghost zeros = buffer@;
    fill_tip(&mut buffer, tip);
    proof {
        let units = text::utf16_prefix(tip@, 259);
        assert(units.len() <= 259);
        text::kept_units_are_the_front(tip@, 259);
        assert(zeros.skip(units.len() as int) =~= Seq::new(
            (260 - units.len()) as nat,
            |i: int| 0u16,
        ));
    }
    assert((2i32 | 4i32) | 8i32 == 14i32) by (bit_vector);
    ThumbButton {
        mask: THB_ICON | THB_TOOLTIP | THB_FLAGS,
        id,
        bitmap: 0,
        icon,
        tip: buffer,
        flags: THBF_ENABLED,
    }
}

/// A step in putting the toolbar in place.
#[derive(Debug, Clone, Copy, PartialEq, Eq, Structural)]
pub enum ButtonStage {
    /// Replace the window procedure, so that clicks arrive.
    InstallSubclass,
    /// Enter the section that only one thread at a time may be in.
    AcquireLock,
    /// Open the system's taskbar interface.
    OpenTaskbarList,
    LoadIcon(TaskbarIconKind),
    /// Hand the buttons over for the first time.
    AddButtons,
    /// Hand the buttons over again.
    UpdateButtons,
    /// Report that the taskbar refused.
    ReportFailure,
    Done,
}

/// The toolbar of a window while it is put in place.
#[derive(Debug, Clone, Copy, PartialEq, Eq, Structural)]
pub struct ButtonSetup {
    pub hwnd: isize,
    pub playing: bool,
    /// The step to take now.
    pub stage: ButtonStage,
    pub prev_icon: isize,
    pub play_pause_icon: isize,
    pub next_icon: isize,
}

/// The icon of the middle button: what a click on it will do.
pub open spec fn play_pause_kind(playing: bool) -> TaskbarIconKind {
    if playing {
        TaskbarIconKind::Pause
    } else {
        TaskbarIconKind::Play
    }
}

/// The tooltip of the middle button.
pub open spec fn play_pause_tip(playing: bool) -> Seq<char> {
    if playing {
        "Pause"@
    } else {
        "Play"@
    }
}

/// Whether a window can have a toolbar: it exists and is not message-only.
pub open spec fn can_have_toolbar(shell: ShellState, hwnd: isize) -> bool {
    hwnd != 0 && hwnd != HWND_MESSAGE && !shell.is_message_only(hwnd)
}

/// The step that follows once a step has ended, with a handle or at least some
/// number where it succeeded and `None` where it failed. Only a refusal of the
/// taskbar itself is reported; a missing icon ends the matter silently.
pub open spec fn next_stage(
    stage: ButtonStage,
    playing: bool,
    buttons_added: bool,
    outcome: Option<isize>,
) -> ButtonStage {
    match (stage, outcome) {
        (ButtonStage::InstallSubclass, _) => ButtonStage::AcquireLock,
        (ButtonStage::AcquireLock, Some(_)) => ButtonStage::OpenTaskbarList,
        (ButtonStage::OpenTaskbarList, Some(_)) => ButtonStage::LoadIcon(
            TaskbarIconKind::Previous,
        ),
        (ButtonStage::OpenTaskbarList, None) => ButtonStage::ReportFailure,
        (ButtonStage::LoadIcon(TaskbarIconKind::Previous), Some(_)) => ButtonStage::LoadIcon(
            play_pause_kind(playing),
        ),
        (ButtonStage::LoadIcon(TaskbarIconKind::Next), Some(_)) => if buttons_added {
            ButtonStage::UpdateButtons
        } else {
            ButtonStage::AddButtons
        },
        (ButtonStage::LoadIcon(_), Some(_)) => ButtonStage::LoadIcon(TaskbarIconKind::Next),
        (ButtonStage::AddButtons, None) => ButtonStage::ReportFailure,
        (ButtonStage::UpdateButtons, None) => ButtonStage::ReportFailure,
        _ => ButtonStage::Done,
    }
}

impl ButtonSetup {
    /// The setup once the current step has ended.
    pub open spec fn next(self, shell: ShellState, outcome: Option<isize>) -> ButtonSetup {
        let stage = next_stage(self.stage, self.playing, shell.buttons_added, outcome);
        match (self.stage, outcome) {
            (ButtonStage::LoadIcon(TaskbarIconKind::Previous), Some(icon)) => ButtonSetup {
                stage,
                prev_icon: icon,
                ..self
            },
            (ButtonStage::LoadIcon(TaskbarIconKind::Next), Some(icon)) => ButtonSetup {
                stage,
                next_icon: icon,
                ..self
            },
            (ButtonStage::LoadIcon(_), Some(icon)) => ButtonSetup {
                stage,
                play_pause_icon: icon,
                ..self
            },
            _ => ButtonSetup { stage, ..self },
        }
    }

    /// What is known about the windows once the current step has ended.
    pub open spec fn next_shell(self, shell: ShellState, outcome: Option<isize>) -> ShellState {
        if self.stage == ButtonStage::AddButtons && outcome is Some {
            ShellState { buttons_added: true, ..shell }
        } else {
            shell
        }
    }

    /// Takes in how the current step ended.
    pub fn advance(&mut self, shell: &mut ShellState, outcome: Option<isize>)
        ensures
            *final(self) == old(self).next(*old(shell), outcome),
            *final(shell) == old(self).next_shell(*old(shell), outcome),
            old(shell).well_formed() ==> final(shell).well_formed(),
            final(self).stage == (match old(self).stage {
                ButtonStage::InstallSubclass => ButtonStage::AcquireLock,
                ButtonStage::AcquireLock => if outcome is Some {
                    ButtonStage::OpenTaskbarList
                } else {
                    ButtonStage::Done
                },
                ButtonStage::OpenTaskbarList => if outcome is Some {
                    ButtonStage::LoadIcon(TaskbarIconKind::Previous)
                } else {
                    ButtonStage::ReportFailure
                },
                ButtonStage::LoadIcon(kind) => if outcome is None {
                    ButtonStage::Done
                } else if kind == TaskbarIconKind::Previous {
                    if old(self).playing {
                        ButtonStage::LoadIcon(TaskbarIconKind::Pause)
                    } else {
                        ButtonStage::LoadIcon(TaskbarIconKind::Play)
                    }
                } else if kind != TaskbarIconKind::Next {
                    ButtonStage::LoadIcon(TaskbarIconKind::Next)
                } else if old(shell).buttons_added {
                    ButtonStage::UpdateButtons
                } else {
                    ButtonStage::AddButtons
                },
                ButtonStage::AddButtons | ButtonStage::UpdateButtons => if outcome is Some {
                    ButtonStage::Done
                } else {
                    ButtonStage::ReportFailure
                },
                ButtonStage::ReportFailure | ButtonStage::Done => ButtonStage::Done,
            }),
            final(self).hwnd == old(self).hwnd,
            final(self).playing == old(self).playing,
            final(self).prev_icon == (if old(self).stage == ButtonStage::LoadIcon(
                TaskbarIconKind::Previous,
            ) && outcome is Some {
                outcome->0
            } else {
                old(self).prev_icon
            }),
            final(self).play_pause_icon == (if (old(self).stage == ButtonStage::LoadIcon(
                TaskbarIconKind::Play,
            ) || old(self).stage == ButtonStage::LoadIcon(TaskbarIconKind::Pause))
                && outcome is Some {
                outcome->0
            } else {
                old(self).play_pause_icon
            }),
            final(self).next_icon == (if old(self).stage == ButtonStage::LoadIcon(
                TaskbarIconKind::Next,
            ) && outcome is Some {
                outcome->0
            } else {
                old(self).next_icon
            }),
            final(shell).buttons_added <==> old(shell).buttons_added || (old(self).stage
                == ButtonStage::AddButtons && outcome is Some),
            final(shell).message_only_hwnd == old(shell).message_only_hwnd,
            final(shell).subclassed_hwnd == old(shell).subclassed_hwnd,
            final(shell).prev_wndproc == old(shell).prev_wndproc,
    {
        match self.stage {
            ButtonStage::InstallSubclass => {
                self.stage = ButtonStage::AcquireLock;
            },
            ButtonStage::AcquireLock => {
                self.stage = if outcome.is_some() {
                    ButtonStage::OpenTaskbarList
                } else {
                    ButtonStage::Done
                };
            },
            ButtonStage::OpenTaskbarList => {
                self.stage = if outcome.is_some() {
                    ButtonStage::LoadIcon(TaskbarIconKind::Previous)
                } else {
                    ButtonStage::ReportFailure
                };
            },
            ButtonStage::LoadIcon(kind) => match outcome {
                None => {
                    self.stage = ButtonStage::Done;
                },
                Some(icon) => match kind {
                    TaskbarIconKind::Previous => {
                        self.prev_icon = icon;
                        self.stage = ButtonStage::LoadIcon(
                            if self.playing {
                                TaskbarIconKind::Pause
                            } else {
                                TaskbarIconKind::Play
                            },
                        );
                    },
                    TaskbarIconKind::Play | TaskbarIconKind::Pause => {
                        self.play_pause_icon = icon;
                        self.stage = ButtonStage::LoadIcon(TaskbarIconKind::Next);
                    },
                    TaskbarIconKind::Next => {
                        self.next_icon = icon;
                        self.stage = if shell.buttons_added {
                            ButtonStage::UpdateButtons
                        } else {
                            ButtonStage::AddButtons
                        };
                    },
                },
            },
            ButtonStage::AddButtons => {
                if outcome.is_some() {
                    shell.buttons_added = true;
                    self.stage = ButtonStage::Done;
                } else {
                    self.stage = ButtonStage::ReportFailure;
                }
            },
            ButtonStage::UpdateButtons => {
                self.stage = if outcome.is_some() {
                    ButtonStage::Done
                } else {
                    ButtonStage::ReportFailure
                };
            },
            ButtonStage::ReportFailure | ButtonStage::Done => {
                self.stage = ButtonStage::Done;
            },
        }
    }

    /// The buttons to hand over: previous, play or pause, next.
    pub fn buttons(&self) -> (buttons: [ThumbButton; 3])
        ensures
            is_button(buttons[0], TASKBAR_PREV_ID, self.prev_icon, "Previous"@),
            is_button(
                buttons[1],
                TASKBAR_PLAY_PAUSE_ID,
                self.play_pause_icon,
                play_pause_tip(self.playing),
            ),
            is_button(buttons[2], TASKBAR_NEXT_ID, self.next_icon, "Next"@),
            buttons[0].mask == 14,
            buttons[0].id == 0x4b01,
            buttons[0].bitmap == 0,
            buttons[0].icon == self.prev_icon,
            buttons[0].flags == 0,
            forall|i: int|
                0 <= i < 260 ==> #[trigger] buttons[0].tip@[i] == (if i < 259 && i
                    < text::utf16("Previous"@).len() {
                    text::utf16("Previous"@)[i]
                } else {
                    0u16
                }),
            buttons[1].mask == 14,
            buttons[1].id == 0x4b02,
            buttons[1].bitmap == 0,
            buttons[1].icon == self.play_pause_icon,
            buttons[1].flags == 0,
            forall|i: int|
                0 <= i < 260 ==> #[trigger] buttons[1].tip@[i] == (if i < 259 && i
                    < text::utf16(if self.playing { "Pause"@ } else { "Play"@ }).len() {
                    text::utf16(if self.playing { "Pause"@ } else { "Play"@ })[i]
                } else {
                    0u16
                }),
            buttons[2].mask == 14,
            buttons[2].id == 0x4b03,
            buttons[2].bitmap == 0,
            buttons[2].icon == self.next_icon,
            buttons[2].flags == 0,
            forall|i: int|
                0 <= i < 260 ==> #[trigger] buttons[2].tip@[i] == (if i < 259 && i
                    < text::utf16("Next"@).len() {
                    text::utf16("Next"@)[i]
                } else {
                    0u16
                }),
    {
        let tip: &'static str = if self.playing {
            "Pause"
        } else {
            "Play"
        };
        [
            taskbar_button(TASKBAR_PREV_ID, self.prev_icon, "Previous"),
            taskbar_button(TASKBAR_PLAY_PAUSE_ID, self.play_pause_icon, tip),
            taskbar_button(TASKBAR_NEXT_ID, self.next_icon, "Next"),
        ]
    }
}

/// The start of putting a toolbar in place.
pub open spec fn setup_start(shell: ShellState, hwnd: isize, playing: bool) -> ButtonSetup {
    ButtonSetup {
        hwnd,
        playing,
        stage: if can_have_toolbar(shell, hwnd) {
            ButtonStage::InstallSubclass
        } else {
            ButtonStage::Done
        },
        prev_icon: 0,
        play_pause_icon: 0,
        next_icon: 0,
    }
}

/// Begins to put the toolbar of a window in place. Nothing is to be done for a
/// window that cannot have one.
pub fn setup_taskbar_buttons(shell: &ShellState, hwnd: isize, playing: bool) -> (setup: ButtonSetup)
    ensures
        setup == setup_start(*shell, hwnd, playing),
        setup.hwnd == hwnd,
        setup.playing == playing,
        setup.stage == (if hwnd != 0 && hwnd != -3 && hwnd != shell.message_only_hwnd {
            ButtonStage::InstallSubclass
        } else {
            ButtonStage::Done
        }),
        setup.prev_icon == 0 && setup.play_pause_icon == 0 && setup.next_icon == 0,
{
    let stage = if hwnd == 0 || hwnd == HWND_MESSAGE || is_message_only_window(shell, hwnd) {
        ButtonStage::Done
    } else {
        ButtonStage::InstallSubclass
    };
    ButtonSetup { hwnd, playing, stage, prev_icon: 0, play_pause_icon: 0, next_icon: 0 }
}

/// A click on a toolbar button raises the event that the button shows: whatever
/// icons were loaded, the three buttons stand for previous, play or pause, and
/// next, in this order.
pub proof fn clicks_reach_their_events(buttons: [ThumbButton; 3], setup: ButtonSetup, wparam: usize)
    requires
        is_button(buttons[0], TASKBAR_PREV_ID, setup.prev_icon, "Previous"@),
        is_button(
            buttons[1],
            TASKBAR_PLAY_PAUSE_ID,
            setup.play_pause_icon,
            play_pause_tip(setup.playing),
        ),
        is_button(buttons[2], TASKBAR_NEXT_ID, setup.next_icon, "Next"@),
        high_word(wparam) == THBN_CLICKED,
    ensures
        low_word(wparam) == buttons[0].id ==> click_event_spec(WM_COMMAND, wparam) == Some(
            SystemEvent::Prev,
        ),
        low_word(wparam) == buttons[1].id ==> click_event_spec(WM_COMMAND, wparam) == Some(
            SystemEvent::Toggle,
        ),
        low_word(wparam) == buttons[2].id ==> click_event_spec(WM_COMMAND, wparam) == Some(
            SystemEvent::Next,
        ),
{
}

/// Messages that are no clicks on the toolbar are passed on, whatever they
/// carry.
pub proof fn other_messages_pass_through(msg: u32, wparam: usize)
    requires
        msg != WM_COMMAND || high_word(wparam) != THBN_CLICKED || (low_word(wparam)
            != TASKBAR_PREV_ID && low_word(wparam) != TASKBAR_PLAY_PAUSE_ID && low_word(wparam)
            != TASKBAR_NEXT_ID),
    ensures
        click_event_spec(msg, wparam) is None,
{
}

/// A message-only window never gets a toolbar, whatever is playing.
pub proof fn message_window_gets_no_toolbar(
    shell: ShellState,
    created: Option<isize>,
    hwnd: isize,
    playing: bool,
)
    requires
        created == Some(hwnd),
    ensures
        setup_start(shell.with_message_window(created), hwnd, playing).stage == ButtonStage::Done,
{
}

/// The units of a buffer before its first null unit.
pub open spec fn until_null(buffer: Seq<u16>) -> Seq<u16>
    decreases buffer.len(),
{
    if buffer.len() == 0 || buffer[0] == 0 {
        Seq::empty()
    } else {
        seq![buffer[0]] + until_null(buffer.drop_first())
    }
}

proof fn char_units_are_not_null(c: char)
    requires
        c != '\0',
    ensures
        forall|i: int|
            0 <= i < text::char_units(c).len() ==> #[trigger] text::char_units(c)[i] != 0,
{
    assert(0 < c as int <= 0x10_FFFF);
}

proof fn units_are_not_null(text: Seq<char>)
    requires
        forall|i: int| 0 <= i < text.len() ==> #[trigger] text[i] != '\0',
    ensures
        forall|i: int| 0 <= i < text::utf16(text).len() ==> #[trigger] text::utf16(text)[i] != 0,
    decreases text.len(),
{
    if text.len() > 0 {
        let front = text.drop_last();
        assert forall|i: int| 0 <= i < front.len() implies #[trigger] front[i] != '\0' by {
            assert(text[i] != '\0');
        }
        units_are_not_null(front);
        let c = text.last();
        assert(text[text.len() - 1] != '\0');
        char_units_are_not_null(c);
        let own = text::char_units(c);
        let units = text::utf16(text);
        let before = text::utf16(front);
        assert forall|i: int| 0 <= i < units.len() implies #[trigger] units[i] != 0 by {
            if i < before.len() {
                assert(units[i] == before[i]);
            } else {
                assert(units[i] == own[i - before.len()]);
            }
        }
    }
}

proof fn until_null_stops_at_terminator(units: Seq<u16>, rest: Seq<u16>)
    requires
        forall|i: int| 0 <= i < units.len() ==> #[trigger] units[i] != 0,
        rest.len() > 0,
        rest[0] == 0,
    ensures
        until_null(units + rest) == units,
    decreases units.len(),
{
    if units.len() == 0 {
        assert((units + rest)[0] == 0);
    } else {
        let tail = units.drop_first();
        assert forall|i: int| 0 <= i < tail.len() implies #[trigger] tail[i] != 0 by {
            assert(units[i + 1] != 0);
        }
        until_null_stops_at_terminator(tail, rest);
        assert((units + rest).drop_first() =~= tail + rest);
        assert((units + rest)[0] == units[0]);
        assert(seq![units[0]] + tail =~= units);
    }
}

/// A tooltip reads back as its text: whoever reads the buffer up to the first
/// null unit gets the UTF-16 encoding of the text, cut off after 259 units.
/// The buffer always ends in a null unit.
pub proof fn tip_reads_back(text: Seq<char>)
    requires
        forall|i: int| 0 <= i < text.len() ==> #[trigger] text[i] != '\0',
    ensures
        until_null(tip_buffer(text)) == text::utf16_prefix(text, 259),
        tip_buffer(text).len() == 260,
        tip_buffer(text)[259] == 0,
{
    units_are_not_null(text);
    let units = text::utf16_prefix(text, 259);
    let rest = Seq::new((260 - units.len()) as nat, |i: int| 0u16);
    assert forall|i: int| 0 <= i < units.len() implies #[trigger] units[i] != 0 by {
        assert(text::utf16(text)[i] != 0);
    }
    until_null_stops_at_terminator(units, rest);
}

/// One attempt to replace a window procedure, where the system answers with
/// `prev` if it is asked.
pub open spec fn attempt(shell: ShellState, hwnd: isize, prev: isize) -> ShellState {
    if subclass_action(shell, hwnd) == SubclassAction::Replace {
        subclassed(shell, hwnd, prev)
    } else {
        shell
    }
}

/// A run of attempts, each given by its window and the system's answer.
pub open spec fn attempts(shell: ShellState, tries: Seq<(isize, isize)>) -> ShellState
    decreases tries.len(),
{
    if tries.len() == 0 {
        shell
    } else {
        attempt(attempts(shell, tries.drop_last()), tries.last().0, tries.last().1)
    }
}

/// At most one window is ever subclassed: once a window procedure has been
/// replaced, no further attempt changes anything.
pub proof fn first_subclass_stays(shell: ShellState, tries: Seq<(isize, isize)>)
    requires
        shell.subclassed_hwnd != 0,
    ensures
        attempts(shell, tries) == shell,
    decreases tries.len(),
{
    if tries.len() > 0 {
        first_subclass_stays(shell, tries.drop_last());
    }
}

/// Any run of attempts keeps the record of window and former procedure in
/// step, and touches neither the message-only window nor the toolbar.
pub proof fn attempts_keep_record(shell: ShellState, tries: Seq<(isize, isize)>)
    requires
        shell.well_formed(),
    ensures
        attempts(shell, tries).well_formed(),
        attempts(shell, tries).message_only_hwnd == shell.message_only_hwnd,
        attempts(shell, tries).buttons_added == shell.buttons_added,
    decreases tries.len(),
{
    if tries.len() > 0 {
        attempts_keep_record(shell, tries.drop_last());
    }
}

/// After a successful replacement, the window is left alone and its former
/// procedure gets the messages that are no clicks; other windows are reported.
/// After a refusal, the next attempt is made again.
pub proof fn subclass_is_settled_by_success(shell: ShellState, hwnd: isize, prev: isize)
    requires
        subclass_action(shell, hwnd) == SubclassAction::Replace,
    ensures
        prev != 0 ==> subclass_action(attempt(shell, hwnd, prev), hwnd) == SubclassAction::Keep,
        prev != 0 ==> prev_target(attempt(shell, hwnd, prev)) == WndProcTarget::Previous(prev),
        prev != 0 ==> forall|other: isize|
            other != 0 && other != hwnd ==> #[trigger] subclass_action(
                attempt(shell, hwnd, prev),
                other,
            ) == SubclassAction::ReportOtherWindow,
        prev == 0 ==> subclass_action(attempt(shell, hwnd, prev), hwnd)
            == SubclassAction::Replace,
{
}

/// The setup and the window state after a run of step outcomes.
pub open spec fn setup_run(
    setup: ButtonSetup,
    shell: ShellState,
    outcomes: Seq<Option<isize>>,
) -> (ButtonSetup, ShellState)
    decreases outcomes.len(),
{
    if outcomes.len() == 0 {
        (setup, shell)
    } else {
        setup_run(
            setup.next(shell, outcomes[0]),
            setup.next_shell(shell, outcomes[0]),
            outcomes.drop_first(),
        )
    }
}

/// How many steps a setup can still take.
spec fn steps_left(stage: ButtonStage) -> nat {
    match stage {
        ButtonStage::InstallSubclass => 8,
        ButtonStage::AcquireLock => 7,
        ButtonStage::OpenTaskbarList => 6,
        ButtonStage::LoadIcon(TaskbarIconKind::Previous) => 5,
        ButtonStage::LoadIcon(TaskbarIconKind::Next) => 3,
        ButtonStage::LoadIcon(_) => 4,
        ButtonStage::AddButtons | ButtonStage::UpdateButtons => 2,
        ButtonStage::ReportFailure => 1,
        ButtonStage::Done => 0,
    }
}

proof fn run_ends(setup: ButtonSetup, shell: ShellState, outcomes: Seq<Option<isize>>)
    requires
        outcomes.len() >= steps_left(setup.stage),
    ensures
        setup_run(setup, shell, outcomes).0.stage == ButtonStage::Done,
    decreases outcomes.len(),
{
    if outcomes.len() > 0 {
        run_ends(
            setup.next(shell, outcomes[0]),
            setup.next_shell(shell, outcomes[0]),
            outcomes.drop_first(),
        );
    }
}

/// Putting a toolbar in place ends after at most eight steps, whatever
/// succeeds or fails.
pub proof fn setup_always_ends(
    shell: ShellState,
    hwnd: isize,
    playing: bool,
    outcomes: Seq<Option<isize>>,
)
    requires
        outcomes.len() >= 8,
    ensures
        setup_run(setup_start(shell, hwnd, playing), shell, outcomes).0.stage == ButtonStage::Done,
{
    run_ends(setup_start(shell, hwnd, playing), shell, outcomes);
}

/// The buttons are handed over, with the icons that were loaded, exactly when
/// the lock, the taskbar interface and all three icons were to be had; whether
/// the window procedure could be replaced makes no difference. They are added
/// the first time and updated from then on.
pub proof fn buttons_need_every_step(
    shell: ShellState,
    hwnd: isize,
    playing: bool,
    outcomes: Seq<Option<isize>>,
)
    requires
        hwnd != 0 && hwnd != -3 && hwnd != shell.message_only_hwnd,
        outcomes.len() == 6,
    ensures
        ({
            let (setup, after) = setup_run(setup_start(shell, hwnd, playing), shell, outcomes);
            let ready = forall|i: int| 1 <= i < 6 ==> #[trigger] outcomes[i] is Some;
            &&& after == shell
            &&& setup.hwnd == hwnd && setup.playing == playing
            &&& setup.stage == ButtonStage::AddButtons <==> ready && !shell.buttons_added
            &&& setup.stage == ButtonStage::UpdateButtons <==> ready && shell.buttons_added
            &&& ready ==> setup.prev_icon == outcomes[3]->0 && setup.play_pause_icon
                == outcomes[4]->0 && setup.next_icon == outcomes[5]->0
        }),
{
    reveal_with_fuel(setup_run, 7);
    let o1 = outcomes.drop_first();
    let o2 = o1.drop_first();
    let o3 = o2.drop_first();
    let o4 = o3.drop_first();
    let o5 = o4.drop_first();
    assert(o1[0] == outcomes[1] && o2[0] == outcomes[2] && o3[0] == outcomes[3] && o4[0]
        == outcomes[4] && o5[0] == outcomes[5]);
    assert(o5.drop_first().len() == 0);
}

/// Once the toolbar has been added it is only ever updated.
pub proof fn added_toolbar_is_only_updated(
    setup: ButtonSetup,
    shell: ShellState,
    outcomes: Seq<Option<isize>>,
)
    requires
        shell.buttons_added,
        setup.stage != ButtonStage::AddButtons,
    ensures
        setup_run(setup, shell, outcomes).0.stage != ButtonStage::AddButtons,
        setup_run(setup, shell, outcomes).1 == shell,
    decreases outcomes.len(),
{
    if outcomes.len() > 0 {
        added_toolbar_is_only_updated(
            setup.next(shell, outcomes[0]),
            setup.next_shell(shell, outcomes[0]),
            outcomes.drop_first(),
        );
    }
}

/// The buttons handed to the taskbar: for the first time or again, and whether
/// the taskbar took them.
pub struct Submission {
    pub add: bool,
    pub taken: bool,
}

/// What a run of step outcomes hands to the taskbar, in order.
pub open spec fn submissions(
    setup: ButtonSetup,
    shell: ShellState,
    outcomes: Seq<Option<isize>>,
) -> Seq<Submission>
    decreases outcomes.len(),
{
    if outcomes.len() == 0 {
        Seq::empty()
    } else {
        let rest = submissions(
            setup.next(shell, outcomes[0]),
            setup.next_shell(shell, outcomes[0]),
            outcomes.drop_first(),
        );
        match setup.stage {
            ButtonStage::AddButtons => seq![Submission { add: true, taken: outcomes[0] is Some }]
                + rest,
            ButtonStage::UpdateButtons => seq![
                Submission { add: false, taken: outcomes[0] is Some },
            ] + rest,
            _ => rest,
        }
    }
}

/// One call for a toolbar: the windows known at the time, the window, what is
/// playing, and how the steps end.
pub struct SetupCall {
    pub shell: ShellState,
    pub hwnd: isize,
    pub playing: bool,
    pub outcomes: Seq<Option<isize>>,
}

impl SetupCall {
    /// The window state that the call finds: what is known of the windows may
    /// have changed in any way, but only setups touch the record of the
    /// toolbar.
    pub open spec fn found(self, added: bool) -> ShellState {
        ShellState { buttons_added: added, ..self.shell }
    }

    /// What the call hands to the taskbar.
    pub open spec fn submits(self, added: bool) -> Seq<Submission> {
        submissions(
            setup_start(self.found(added), self.hwnd, self.playing),
            self.found(added),
            self.outcomes,
        )
    }

    /// Whether the toolbar is on record as added after the call.
    pub open spec fn leaves(self, added: bool) -> bool {
        setup_run(
            setup_start(self.found(added), self.hwnd, self.playing),
            self.found(added),
            self.outcomes,
        ).1.buttons_added
    }
}

/// Whether the toolbar is on record as added after a sequence of calls, in the
/// order in which they hold the lock, starting without one.
pub open spec fn session_added(calls: Seq<SetupCall>) -> bool
    decreases calls.len(),
{
    if calls.len() == 0 {
        false
    } else {
        calls.last().leaves(session_added(calls.drop_last()))
    }
}

/// What a sequence of calls hands to the taskbar.
pub open spec fn session_submits(calls: Seq<SetupCall>) -> Seq<Submission>
    decreases calls.len(),
{
    if calls.len() == 0 {
        Seq::empty()
    } else {
        session_submits(calls.drop_last()) + calls.last().submits(
            session_added(calls.drop_last()),
        )
    }
}

/// Whether a submission put the toolbar in place.
pub open spec fn is_successful_add(submission: Submission) -> bool {
    submission.add && submission.taken
}

proof fn nothing_after_submission(
    setup: ButtonSetup,
    shell: ShellState,
    outcomes: Seq<Option<isize>>,
)
    requires
        setup.stage == ButtonStage::ReportFailure || setup.stage == ButtonStage::Done,
    ensures
        submissions(setup, shell, outcomes).len() == 0,
        setup_run(setup, shell, outcomes).1 == shell,
    decreases outcomes.len(),
{
    if outcomes.len() > 0 {
        nothing_after_submission(
            setup.next(shell, outcomes[0]),
            setup.next_shell(shell, outcomes[0]),
            outcomes.drop_first(),
        );
    }
}

proof fn run_submits_once(setup: ButtonSetup, shell: ShellState, outcomes: Seq<Option<isize>>)
    requires
        setup.stage == ButtonStage::AddButtons ==> !shell.buttons_added,
        setup.stage == ButtonStage::UpdateButtons ==> shell.buttons_added,
    ensures
        ({
            let given = submissions(setup, shell, outcomes);
            &&& given.len() <= 1
            &&& given.len() == 1 ==> given[0].add == !shell.buttons_added
            &&& setup_run(setup, shell, outcomes).1.buttons_added == (shell.buttons_added || (
            given.len() == 1 && is_successful_add(given[0])))
        }),
    decreases outcomes.len(),
{
    if outcomes.len() > 0 {
        let next = setup.next(shell, outcomes[0]);
        let next_shell = setup.next_shell(shell, outcomes[0]);
        let rest = outcomes.drop_first();
        match setup.stage {
            ButtonStage::AddButtons | ButtonStage::UpdateButtons => {
                nothing_after_submission(next, next_shell, rest);
            },
            _ => {
                run_submits_once(next, next_shell, rest);
            },
        }
    }
}

/// A call hands buttons to the taskbar at most once: it adds them where the
/// toolbar is not on record and updates them where it is. The record changes
/// exactly by a successful add.
pub proof fn call_submits_at_most_once(call: SetupCall, added: bool)
    ensures
        call.submits(added).len() <= 1,
        call.submits(added).len() == 1 ==> call.submits(added)[0].add == !added,
        call.leaves(added) == (added || (call.submits(added).len() == 1 && is_successful_add(
            call.submits(added)[0],
        ))),
{
    run_submits_once(
        setup_start(call.found(added), call.hwnd, call.playing),
        call.found(added),
        call.outcomes,
    );
}

/// Over any sequence of calls, on any windows: at most one add succeeds, no add
/// is made after it, every update comes after it, and the toolbar is on record
/// as added exactly when it has happened.
pub proof fn toolbar_is_added_at_most_once(calls: Seq<SetupCall>)
    ensures
        ({
            let given = session_submits(calls);
            &&& forall|i: int, j: int|
                0 <= i < j < given.len() && is_successful_add(#[trigger] given[i])
                    ==> !(#[trigger] given[j]).add
            &&& forall|j: int|
                0 <= j < given.len() && !(#[trigger] given[j]).add ==> exists|i: int|
                    0 <= i < j && is_successful_add(#[trigger] given[i])
            &&& session_added(calls) <==> exists|i: int|
                0 <= i < given.len() && is_successful_add(#[trigger] given[i])
        }),
    decreases calls.len(),
{
    if calls.len() > 0 {
        let before = calls.drop_last();
        let added = session_added(before);
        let old_given = session_submits(before);
        let more = calls.last().submits(added);
        let given = session_submits(calls);
        toolbar_is_added_at_most_once(before);
        call_submits_at_most_once(calls.last(), added);
        assert(given == old_given + more);
        assert forall|i: int, j: int|
            0 <= i < j < given.len() && is_successful_add(
                #[trigger] given[i],
            ) implies !(#[trigger] given[j]).add by {
            assert(given[i] == old_given[i]);
            if j < old_given.len() {
                assert(given[j] == old_given[j]);
            } else {
                assert(is_successful_add(old_given[i]));
                assert(given[j] == more[0]);
            }
        }
        assert forall|j: int| 0 <= j < given.len() && !(#[trigger] given[j]).add implies exists|
            i: int,
        |
            0 <= i < j && is_successful_add(#[trigger] given[i]) by {
            if j < old_given.len() {
                assert(given[j] == old_given[j]);
                let i = choose|i: int| 0 <= i < j && is_successful_add(#[trigger] old_given[i]);
                assert(is_successful_add(given[i]));
            } else {
                assert(given[j] == more[0]);
                let i = choose|i: int|
                    0 <= i < old_given.len() && is_successful_add(#[trigger] old_given[i]);
                assert(is_successful_add(given[i]));
            }
        }
        if session_added(calls) {
            if added {
                let i = choose|i: int|
                    0 <= i < old_given.len() && is_successful_add(#[trigger] old_given[i]);
                assert(is_successful_add(given[i]));
            } else {
                assert(given[old_given.len() as int] == more[0]);
            }
        }
        if exists|i: int| 0 <= i < given.len() && is_successful_add(#[trigger] given[i]) {
            let i = choose|i: int| 0 <= i < given.len() && is_successful_add(#[trigger] given[i]);
            if i < old_given.len() {
                assert(is_successful_add(old_given[i]));
            } else {
                assert(given[i] == more[0]);
            }
        }
    }
}

/// What a message does follows from its numbers alone: only a command message
/// whose upper word is the code of a click does anything, and then the lower
/// word tells which button it is.
pub proof fn clicks_by_number(msg: u32, wparam: usize)
    ensures
        click_event_spec(msg, wparam) == Some(SystemEvent::Prev) <==> msg == 0x0111
            && (wparam as int / 0x1_0000) % 0x1_0000 == 0x1800 && wparam as int % 0x1_0000 == 0x4b01,
        click_event_spec(msg, wparam) == Some(SystemEvent::Toggle) <==> msg == 0x0111
            && (wparam as int / 0x1_0000) % 0x1_0000 == 0x1800 && wparam as int % 0x1_0000 == 0x4b02,
        click_event_spec(msg, wparam) == Some(SystemEvent::Next) <==> msg == 0x0111
            && (wparam as int / 0x1_0000) % 0x1_0000 == 0x1800 && wparam as int % 0x1_0000 == 0x4b03,
        click_event_spec(msg, wparam) is Some <==> msg == 0x0111 && (wparam as int / 0x1_0000) % 0x1_0000
            == 0x1800 && 0x4b01 <= wparam as int % 0x1_0000 <= 0x4b03,
{
}

/// Messages that are no clicks reach the window procedure that was replaced,
/// whichever it is, and the system's own one where none was.
pub proof fn messages_reach_former_procedure(shell: ShellState)
    ensures
        prev_target(shell) == WndProcTarget::Default <==> shell.prev_wndproc == 0,
        shell.prev_wndproc != 0 ==> prev_target(shell) == WndProcTarget::Previous(
            shell.prev_wndproc,
        ),
{
}

/// A window procedure is replaced for the first real window, kept for the
/// window that has it already, and refused to any other; nothing else about
/// the windows makes a difference.
pub proof fn only_the_record_decides_on_replacement(shell: ShellState, hwnd: isize)
    ensures
        subclass_action(shell, hwnd) == SubclassAction::Keep <==> hwnd == 0
            || shell.subclassed_hwnd == hwnd,
        subclass_action(shell, hwnd) == SubclassAction::Replace <==> hwnd != 0
            && shell.subclassed_hwnd == 0,
        subclass_action(shell, hwnd) == SubclassAction::ReportOtherWindow <==> hwnd != 0
            && shell.subclassed_hwnd != 0 && shell.subclassed_hwnd != hwnd,
{
}

/// A successful replacement puts exactly the window and its former procedure on
/// record, whatever stood there; a refused one changes nothing.
pub proof fn replacement_is_recorded(shell: ShellState, hwnd: isize, prev: isize)
    ensures
        prev != 0 ==> subclassed(shell, hwnd, prev).prev_wndproc == prev,
        prev != 0 ==> subclassed(shell, hwnd, prev).subclassed_hwnd == hwnd,
        prev == 0 ==> subclassed(shell, hwnd, prev) == shell,
        subclassed(shell, hwnd, prev).message_only_hwnd == shell.message_only_hwnd,
        subclassed(shell, hwnd, prev).buttons_added == shell.buttons_added,
{
}

/// Every window that is neither missing nor message-only gets a setup, whether
/// or not a window has been subclassed and the toolbar has been added before;
/// no other window gets one.
pub proof fn every_real_window_gets_a_setup(shell: ShellState, hwnd: isize, playing: bool)
    ensures
        setup_start(shell, hwnd, playing).stage == ButtonStage::InstallSubclass <==> hwnd != 0
            && hwnd != -3 && hwnd != shell.message_only_hwnd,
        setup_start(shell, hwnd, playing).stage != ButtonStage::InstallSubclass ==> setup_start(
            shell,
            hwnd,
            playing,
        ).stage == ButtonStage::Done,
        setup_start(shell, hwnd, playing).hwnd == hwnd,
        setup_start(shell, hwnd, playing).playing == playing,
{
}

/// A further setup of a window that is subclassed and has its buttons updates
/// them, with the icons that were loaded, when every step succeeds.
pub proof fn subclassed_window_is_updated(
    shell: ShellState,
    hwnd: isize,
    playing: bool,
    handles: Seq<isize>,
)
    requires
        shell.subclassed_hwnd == hwnd,
        shell.buttons_added,
        hwnd != 0 && hwnd != -3 && hwnd != shell.message_only_hwnd,
        handles.len() == 6,
    ensures
        ({
            let outcomes = Seq::new(6, |i: int| Some(handles[i]));
            let (setup, after) = setup_run(setup_start(shell, hwnd, playing), shell, outcomes);
            &&& setup.stage == ButtonStage::UpdateButtons
            &&& setup.prev_icon == handles[3]
            &&& setup.play_pause_icon == handles[4]
            &&& setup.next_icon == handles[5]
            &&& after == shell
        }),
{
    let outcomes = Seq::new(6, |i: int| Some(handles[i]));
    buttons_need_every_step(shell, hwnd, playing, outcomes);
    assert(forall|i: int| 1 <= i < 6 ==> #[trigger] outcomes[i] is Some);
}

/// A setup takes the same course whatever handles its steps bring and whatever
/// is known of the windows, apart from whether the toolbar has been added.
pub proof fn handles_steer_nothing(
    setup: ButtonSetup,
    shell: ShellState,
    other: ShellState,
    a: isize,
    b: isize,
)
    requires
        shell.buttons_added == other.buttons_added,
    ensures
        setup.next(shell, Some(a)).stage == setup.next(other, Some(b)).stage,
        setup.next(shell, None).stage == setup.next(other, None).stage,
{
}

/// A step that fails ends the matter. It is reported exactly when the taskbar
/// itself refused; whether the window procedure could be replaced makes no
/// difference.
pub proof fn refusals_of_the_taskbar_are_reported(setup: ButtonSetup, shell: ShellState)
    ensures
        setup.next(shell, None).stage == ButtonStage::ReportFailure <==> setup.stage
            == ButtonStage::OpenTaskbarList || setup.stage == ButtonStage::AddButtons
            || setup.stage == ButtonStage::UpdateButtons,
        setup.next(shell, None).stage == ButtonStage::AcquireLock <==> setup.stage
            == ButtonStage::InstallSubclass,
        setup.next(shell, None).stage == ButtonStage::Done <==> setup.stage
            == ButtonStage::AcquireLock || setup.stage is LoadIcon || setup.stage
            == ButtonStage::ReportFailure || setup.stage == ButtonStage::Done,
{
}

/// The icon of the middle button shows what a click will do: pause while the
/// player plays, and play while it does not.
pub proof fn middle_icon_follows_the_player(setup: ButtonSetup, shell: ShellState, icon: isize)
    requires
        setup.stage == ButtonStage::LoadIcon(TaskbarIconKind::Previous),
    ensures
        setup.playing ==> setup.next(shell, Some(icon)).stage == ButtonStage::LoadIcon(
            TaskbarIconKind::Pause,
        ),
        !setup.playing ==> setup.next(shell, Some(icon)).stage == ButtonStage::LoadIcon(
            TaskbarIconKind::Play,
        ),
        play_pause_tip(setup.playing) == (if setup.playing {
            "Pause"@
        } else {
            "Play"@
        }),
{
}

/// A step changes an icon only by loading it, and then to the very handle that
/// the step brought; the window and the player's state are never changed.
pub proof fn loaded_icons_are_kept(setup: ButtonSetup, shell: ShellState, outcome: Option<isize>)
    ensures
        ({
            let next = setup.next(shell, outcome);
            &&& next.hwnd == setup.hwnd && next.playing == setup.playing
            &&& next.prev_icon == setup.prev_icon || (setup.stage == ButtonStage::LoadIcon(
                TaskbarIconKind::Previous,
            ) && outcome == Some(next.prev_icon))
            &&& next.next_icon == setup.next_icon || (setup.stage == ButtonStage::LoadIcon(
                TaskbarIconKind::Next,
            ) && outcome == Some(next.next_icon))
            &&& next.play_pause_icon == setup.play_pause_icon || ((setup.stage
                == ButtonStage::LoadIcon(TaskbarIconKind::Play) || setup.stage
                == ButtonStage::LoadIcon(TaskbarIconKind::Pause)) && outcome == Some(
                next.play_pause_icon,
            ))
            &&& outcome matches Some(icon) ==> {
                &&& setup.stage == ButtonStage::LoadIcon(TaskbarIconKind::Previous)
                    ==> next.prev_icon == icon
                &&& setup.stage == ButtonStage::LoadIcon(TaskbarIconKind::Next)
                    ==> next.next_icon == icon
                &&& setup.stage == ButtonStage::LoadIcon(TaskbarIconKind::Play) || setup.stage
                    == ButtonStage::LoadIcon(TaskbarIconKind::Pause) ==> next.play_pause_icon
                    == icon
            }
        }),
{
}

/// The toolbar is put on record by a successful add and by nothing else, and
/// nothing else about the windows is changed by a step.
pub proof fn only_an_add_is_recorded(setup: ButtonSetup, shell: ShellState, outcome: Option<isize>)
    ensures
        ({
            let after = setup.next_shell(shell, outcome);
            &&& after.buttons_added <==> shell.buttons_added || (setup.stage
                == ButtonStage::AddButtons && outcome is Some)
            &&& after.message_only_hwnd == shell.message_only_hwnd
            &&& after.subclassed_hwnd == shell.subclassed_hwnd
            &&& after.prev_wndproc == shell.prev_wndproc
        }),
{
}

/// A tooltip buffer holds the encoding of the text from its front on, as far as
/// there is room before the last unit, and null units everywhere else.
pub proof fn tip_holds_the_encoding(text: Seq<char>)
    ensures
        tip_buffer(text).len() == 260,
        forall|i: int|
            0 <= i < 260 ==> #[trigger] tip_buffer(text)[i] == (if i < 259 && i < text::utf16(
                text,
            ).len() {
                text::utf16(text)[i]
            } else {
                0u16
            }),
{
    text::kept_units_are_the_front(text, 259);
}

/// Whoever decodes a tooltip up to its first null unit gets the text back,
/// whatever characters it holds, where its encoding fits.
pub proof fn tip_decodes_to_text(text: Seq<char>)
    requires
        forall|i: int| 0 <= i < text.len() ==> #[trigger] text[i] != '\0',
        text::utf16(text).len() <= 259,
    ensures
        ({
            let read = text::code_points(until_null(tip_buffer(text)));
            &&& read.len() == text.len()
            &&& forall|i: int| 0 <= i < text.len() ==> #[trigger] read[i] == text[i] as int
        }),
{
    tip_reads_back(text);
    text::encoding_decodes_to_text(text);
}

} // verus!
