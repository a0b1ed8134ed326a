//! Window handles: the search for the player's main window, and what is known
//! about the windows in use.
use vstd::prelude::*;

verus! {

/// The pseudo handle that stands for the parent of message-only windows.
pub const HWND_MESSAGE: isize = -3;

/// The state of a search through the top-level windows. A handle of zero means
/// that no such window has been seen.
#[derive(Debug, Clone, Copy, PartialEq, Eq, Structural)]
pub struct EnumData {
    /// The process whose window is searched for.
    pub pid: u32,
    /// The visible window that ended the search.
    pub hwnd: isize,
    /// The first window of the process, kept in case none is visible yet.
    pub any_hwnd: isize,
}

/// A top-level window as the search sees it.
pub struct TopWindow {
    pub hwnd: isize,
    pub pid: u32,
    pub visible: bool,
}

/// Whether the window is a visible window of the process.
pub open spec fn is_main(pid: u32, window: TopWindow) -> bool {
    window.pid == pid && window.visible
}

/// Whether the window can stand in while no window of the process is visible.
pub open spec fn is_fallback(pid: u32, window: TopWindow) -> bool {
    window.pid == pid && window.hwnd != 0
}

/// The search state after one more window.
pub open spec fn visit(data: EnumData, window: TopWindow) -> EnumData {
    if is_main(data.pid, window) {
        EnumData { hwnd: window.hwnd, ..data }
    } else if window.pid == data.pid && data.any_hwnd == 0 {
        EnumData { any_hwnd: window.hwnd, ..data }
    } else {
        data
    }
}

/// The search state after the windows have been enumerated: the enumeration
/// ends at the first visible window of the process.
pub open spec fn scan(data: EnumData, windows: Seq<TopWindow>) -> EnumData
    decreases windows.len(),
{
    if windows.len() == 0 {
        data
    } else if is_main(data.pid, windows[0]) {
        visit(data, windows[0])
    } else {
        scan(visit(data, windows[0]), windows.drop_first())
    }
}

/// The window to attach the media controls to.
#[derive(Debug, Clone, Copy, PartialEq, Eq, Structural)]
pub enum WindowChoice {
    Existing(isize),
    /// The process has no window yet: make a message-only window.
    CreateMessageWindow,
}

/// The window that a search settles on: the visible one before the fallback.
pub open spec fn choice(data: EnumData) -> WindowChoice {
    if data.hwnd != 0 {
        WindowChoice::Existing(data.hwnd)
    } else if data.any_hwnd != 0 {
        WindowChoice::Existing(data.any_hwnd)
    } else {
        WindowChoice::CreateMessageWindow
    }
}

impl EnumData {
    /// The start of a search.
    pub open spec fn fresh(pid: u32) -> EnumData {
        EnumData { pid, hwnd: 0, any_hwnd: 0 }
    }

    /// Starts a search for a window of the process.
    pub fn new(pid: u32) -> (data: EnumData)
        ensures
            data == EnumData::fresh(pid),
            data.pid == pid,
            data.hwnd == 0,
            data.any_hwnd == 0,
    {
        EnumData { pid, hwnd: 0, any_hwnd: 0 }
    }
}

/// Looks at one window of the enumeration and tells whether to go on. Whether
/// a window of another process is visible makes no difference.
pub fn enum_proc(data: &mut EnumData, hwnd: isize, pid: u32, visible: bool) -> (go_on: bool)
    ensures
        *final(data) == visit(*old(data), (TopWindow { hwnd, pid, visible })),
        go_on == !is_main(old(data).pid, (TopWindow { hwnd, pid, visible })),
        go_on <==> !(pid == old(data).pid && visible),
        final(data).pid == old(data).pid,
        final(data).hwnd == (if pid == old(data).pid && visible {
            hwnd
        } else {
            old(data).hwnd
        }),
        final(data).any_hwnd == (if pid == old(data).pid && !visible && old(data).any_hwnd == 0 {
            hwnd
        } else {
            old(data).any_hwnd
        }),
{
    if pid == data.pid && visible {
        data.hwnd = hwnd;
        false
    } else {
        if pid == data.pid && data.any_hwnd == 0 {
            data.any_hwnd = hwnd;
        }
        true
    }
}

/// Settles on a window once the enumeration has ended.
pub fn find_main_hwnd(data: &EnumData) -> (chosen: WindowChoice)
    ensures
        chosen == choice(*data),
        data.hwnd != 0 ==> chosen == WindowChoice::Existing(data.hwnd),
        data.hwnd == 0 && data.any_hwnd != 0 ==> chosen == WindowChoice::Existing(data.any_hwnd),
        data.hwnd == 0 && data.any_hwnd == 0 ==> chosen == WindowChoice::CreateMessageWindow,
{
    if data.hwnd != 0 {
        WindowChoice::Existing(data.hwnd)
    } else if data.any_hwnd != 0 {
        WindowChoice::Existing(data.any_hwnd)
    } else {
        WindowChoice::CreateMessageWindow
    }
}

/// The handle of a created window, where the system made one that is not null.
pub open spec fn usable_handle(created: Option<isize>) -> Option<isize> {
    if created == Some(0isize) {
        None
    } else {
        created
    }
}

/// What is known about the windows in use. A handle or window procedure of
/// zero means that there is none.
#[derive(Debug, Clone, Copy, PartialEq, Eq, Structural)]
pub struct ShellState {
    /// The message-only window that was made for want of a real one.
    pub message_only_hwnd: isize,
    /// The window whose window procedure was replaced.
    pub subclassed_hwnd: isize,
    /// The window procedure that was replaced.
    pub prev_wndproc: isize,
    /// Whether the thumbnail toolbar has been put in place.
    pub buttons_added: bool,
}

impl ShellState {
    /// A window is on record as subclassed exactly when its former window
    /// procedure is.
    pub open spec fn well_formed(self) -> bool {
        self.subclassed_hwnd == 0 <==> self.prev_wndproc == 0
    }

    /// Whether the handle is that of the message-only window.
    pub open spec fn is_message_only(self, hwnd: isize) -> bool {
        hwnd != 0 && hwnd == self.message_only_hwnd
    }

    /// The state once the making of a message-only window has ended with the
    /// given outcome.
    pub open spec fn with_message_window(self, created: Option<isize>) -> ShellState {
        match usable_handle(created) {
            Some(hwnd) => ShellState { message_only_hwnd: hwnd, ..self },
            None => self,
        }
    }

    /// Nothing has been set up.
    pub fn new() -> (shell: ShellState)
        ensures
            shell == (ShellState {
                message_only_hwnd: 0,
                subclassed_hwnd: 0,
                prev_wndproc: 0,
                buttons_added: false,
            }),
            shell.well_formed(),
    {
        ShellState {
            message_only_hwnd: 0,
            subclassed_hwnd: 0,
            prev_wndproc: 0,
            buttons_added: false,
        }
    }
}

/// Records the outcome of making a message-only window (`None` when the system
/// refused) and returns the usable handle. A null handle counts as a refusal.
pub fn create_message_window(shell: &mut ShellState, created: Option<isize>) -> (hwnd: Option<
    isize,
>)
    ensures
        hwnd == usable_handle(created),
        *final(shell) == old(shell).with_message_window(created),
        old(shell).well_formed() ==> final(shell).well_formed(),
        created matches Some(h) ==> (h != 0 ==> hwnd == Some(h) && final(shell).message_only_hwnd
            == h),
        created is None || created == Some(0isize) ==> hwnd is None && *final(shell) == *old(
            shell,
        ),
        final(shell).subclassed_hwnd == old(shell).subclassed_hwnd,
        final(shell).prev_wndproc == old(shell).prev_wndproc,
        final(shell).buttons_added == old(shell).buttons_added,
{
    match created {
        Some(h) => {
            if h != 0 {
                shell.message_only_hwnd = h;
                Some(h)
            } else {
                None
            }
        },
        None => None,
    }
}

/// Whether the handle is that of the message-only window.
pub fn is_message_only_window(shell: &ShellState, hwnd: isize) -> (yes: bool)
    ensures
        yes == shell.is_message_only(hwnd),
        yes <==> hwnd != 0 && hwnd == shell.message_only_hwnd,
{
    hwnd != 0 && shell.message_only_hwnd == hwnd
}

proof fn scan_finds_main(data: EnumData, windows: Seq<TopWindow>, i: int)
    requires
        0 <= i < windows.len(),
        is_main(data.pid, windows[i]),
        forall|j: int| 0 <= j < i ==> !is_main(data.pid, #[trigger] windows[j]),
    ensures
        scan(data, windows).hwnd == windows[i].hwnd,
    decreases i,
{
    if i > 0 {
        assert(!is_main(data.pid, windows[0]));
        let rest = windows.drop_first();
        assert forall|j: int| 0 <= j < i - 1 implies !is_main(
            data.pid,
            #[trigger] rest[j],
        ) by {
            assert(!is_main(data.pid, windows[j + 1]));
        }
        scan_finds_main(visit(data, windows[0]), rest, i - 1);
    }
}

proof fn scan_keeps_fallback(data: EnumData, windows: Seq<TopWindow>)
    requires
        data.any_hwnd != 0,
    ensures
        scan(data, windows).any_hwnd == data.any_hwnd,
    decreases windows.len(),
{
    if windows.len() > 0 && !is_main(data.pid, windows[0]) {
        scan_keeps_fallback(visit(data, windows[0]), windows.drop_first());
    }
}

proof fn scan_without_main(data: EnumData, windows: Seq<TopWindow>)
    requires
        forall|j: int| 0 <= j < windows.len() ==> !is_main(data.pid, #[trigger] windows[j]),
    ensures
        scan(data, windows).hwnd == data.hwnd,
    decreases windows.len(),
{
    if windows.len() > 0 {
        let rest = windows.drop_first();
        assert forall|j: int| 0 <= j < rest.len() implies !is_main(
            data.pid,
            #[trigger] rest[j],
        ) by {
            assert(!is_main(data.pid, windows[j + 1]));
        }
        scan_without_main(visit(data, windows[0]), rest);
    }
}

proof fn scan_finds_fallback(data: EnumData, windows: Seq<TopWindow>, i: int)
    requires
        data.any_hwnd == 0,
        0 <= i < windows.len(),
        is_fallback(data.pid, windows[i]),
        forall|j: int| 0 <= j <= i ==> !is_main(data.pid, #[trigger] windows[j]),
        forall|j: int| 0 <= j < i ==> !is_fallback(data.pid, #[trigger] windows[j]),
    ensures
        scan(data, windows).any_hwnd == windows[i].hwnd,
    decreases i,
{
    let rest = windows.drop_first();
    assert(!is_main(data.pid, windows[0]));
    if i == 0 {
        scan_keeps_fallback(visit(data, windows[0]), rest);
    } else {
        assert(!is_fallback(data.pid, windows[0]));
        assert forall|j: int| 0 <= j <= i - 1 implies !is_main(
            data.pid,
            #[trigger] rest[j],
        ) by {
            assert(!is_main(data.pid, windows[j + 1]));
        }
        assert forall|j: int| 0 <= j < i - 1 implies !is_fallback(
            data.pid,
            #[trigger] rest[j],
        ) by {
            assert(!is_fallback(data.pid, windows[j + 1]));
        }
        scan_finds_fallback(visit(data, windows[0]), rest, i - 1);
    }
}

proof fn scan_without_fallback(data: EnumData, windows: Seq<TopWindow>)
    requires
        data.any_hwnd == 0,
        forall|j: int| 0 <= j < windows.len() ==> !is_fallback(data.pid, #[trigger] windows[j]),
    ensures
        scan(data, windows).any_hwnd == 0,
    decreases windows.len(),
{
    if windows.len() > 0 && !is_main(data.pid, windows[0]) {
        let rest = windows.drop_first();
        assert(!is_fallback(data.pid, windows[0]));
        assert forall|j: int| 0 <= j < rest.len() implies !is_fallback(
            data.pid,
            #[trigger] rest[j],
        ) by {
            assert(!is_fallback(data.pid, windows[j + 1]));
        }
        scan_without_fallback(visit(data, windows[0]), rest);
    }
}

/// The first visible window of the process is chosen, whatever its handle is
/// and whatever other windows there are.
pub proof fn first_visible_window_is_chosen(pid: u32, windows: Seq<TopWindow>, i: int)
    requires
        0 <= i < windows.len(),
        windows[i].pid == pid && windows[i].visible,
        windows[i].hwnd != 0,
        forall|j: int|
            0 <= j < i ==> !((#[trigger] windows[j]).pid == pid && windows[j].visible),
    ensures
        choice(scan(EnumData::fresh(pid), windows)) == WindowChoice::Existing(windows[i].hwnd),
{
    search_ends_at_first_visible_window(EnumData::fresh(pid), windows, i);
}

/// A search ends at the first visible window of the process: that window is
/// noted, whatever its handle is, and no window behind it makes a difference.
pub proof fn search_ends_at_first_visible_window(data: EnumData, windows: Seq<TopWindow>, i: int)
    requires
        0 <= i < windows.len(),
        windows[i].pid == data.pid && windows[i].visible,
        forall|j: int|
            0 <= j < i ==> !((#[trigger] windows[j]).pid == data.pid && windows[j].visible),
    ensures
        scan(data, windows).hwnd == windows[i].hwnd,
        scan(data, windows) == scan(data, windows.take(i + 1)),
    decreases i,
{
    assert forall|j: int| 0 <= j < i implies !is_main(data.pid, #[trigger] windows[j]) by {
        assert(!(windows[j].pid == data.pid && windows[j].visible));
    }
    scan_finds_main(data, windows, i);
    let seen = windows.take(i + 1);
    if i > 0 {
        let rest = windows.drop_first();
        assert(!is_main(data.pid, windows[0]));
        assert forall|j: int| 0 <= j < i - 1 implies !((#[trigger] rest[j]).pid == data.pid
            && rest[j].visible) by {
            assert(!(windows[j + 1].pid == data.pid && windows[j + 1].visible));
        }
        search_ends_at_first_visible_window(visit(data, windows[0]), rest, i - 1);
        assert(seen.drop_first() =~= rest.take(i));
    }
}

/// The first window of the process that has a handle is kept as a fallback,
/// unless a visible window has ended the search before, whatever comes later.
pub proof fn first_own_window_is_kept(pid: u32, windows: Seq<TopWindow>, i: int)
    requires
        0 <= i < windows.len(),
        windows[i].pid == pid && windows[i].hwnd != 0,
        forall|j: int| 0 <= j < i ==> !((#[trigger] windows[j]).pid == pid && windows[j].hwnd != 0),
        forall|j: int|
            0 <= j <= i ==> !((#[trigger] windows[j]).pid == pid && windows[j].visible),
    ensures
        scan(EnumData::fresh(pid), windows).any_hwnd == windows[i].hwnd,
{
    assert forall|j: int| 0 <= j <= i implies !is_main(pid, #[trigger] windows[j]) by {
        assert(!(windows[j].pid == pid && windows[j].visible));
    }
    assert forall|j: int| 0 <= j < i implies !is_fallback(pid, #[trigger] windows[j]) by {
        assert(!(windows[j].pid == pid && windows[j].hwnd != 0));
    }
    scan_finds_fallback(EnumData::fresh(pid), windows, i);
}

/// Windows of other processes make no difference to a search.
pub proof fn other_windows_do_not_matter(data: EnumData, windows: Seq<TopWindow>, other: TopWindow)
    requires
        other.pid != data.pid,
    ensures
        visit(data, other) == data,
        scan(data, seq![other] + windows) == scan(data, windows),
{
    assert((seq![other] + windows).drop_first() =~= windows);
}

/// While no window of the process is visible, its first window is chosen.
pub proof fn hidden_window_is_fallback(pid: u32, windows: Seq<TopWindow>, i: int)
    requires
        0 <= i < windows.len(),
        windows[i].pid == pid && windows[i].hwnd != 0,
        forall|j: int|
            0 <= j < windows.len() ==> !((#[trigger] windows[j]).pid == pid && windows[j].visible),
        forall|j: int| 0 <= j < i ==> !((#[trigger] windows[j]).pid == pid && windows[j].hwnd != 0),
    ensures
        choice(scan(EnumData::fresh(pid), windows)) == WindowChoice::Existing(windows[i].hwnd),
{
    assert forall|j: int| 0 <= j < windows.len() implies !is_main(
        pid,
        #[trigger] windows[j],
    ) by {
        assert(!(windows[j].pid == pid && windows[j].visible));
    }
    scan_without_main(EnumData::fresh(pid), windows);
    first_own_window_is_kept(pid, windows, i);
}

/// A message-only window is made exactly when the process owns no window.
pub proof fn message_window_is_last_resort(pid: u32, windows: Seq<TopWindow>)
    requires
        forall|j: int| 0 <= j < windows.len() ==> (#[trigger] windows[j]).hwnd != 0,
    ensures
        choice(scan(EnumData::fresh(pid), windows)) == WindowChoice::CreateMessageWindow <==> (
        forall|j: int| 0 <= j < windows.len() ==> (#[trigger] windows[j]).pid != pid),
{
    let data = EnumData::fresh(pid);
    if forall|j: int| 0 <= j < windows.len() ==> (#[trigger] windows[j]).pid != pid {
        scan_without_main(data, windows);
        scan_without_fallback(data, windows);
    } else {
        let own = choose|j: int| 0 <= j < windows.len() && (#[trigger] windows[j]).pid == pid;
        own_window_is_chosen(data, windows, own);
    }
}

proof fn own_window_is_chosen(data: EnumData, windows: Seq<TopWindow>, own: int)
    requires
        0 <= own < windows.len(),
        windows[own].pid == data.pid,
        forall|j: int| 0 <= j < windows.len() ==> (#[trigger] windows[j]).hwnd != 0,
    ensures
        choice(scan(data, windows)) != WindowChoice::CreateMessageWindow,
    decreases own,
{
    if is_main(data.pid, windows[0]) {
        assert(windows[0].hwnd != 0);
    } else {
        let next = visit(data, windows[0]);
        let rest = windows.drop_first();
        if next.any_hwnd != 0 {
            scan_keeps_fallback(next, rest);
        } else {
            assert(windows[0].hwnd != 0);
            assert forall|j: int| 0 <= j < rest.len() implies (#[trigger] rest[j]).hwnd != 0 by {
                assert(windows[j + 1].hwnd != 0);
            }
            own_window_is_chosen(next, rest, own - 1);
        }
    }
}

/// A created window is on record as message-only, and no other handle is;
/// where none was created, the record stays what it was.
pub proof fn created_window_is_message_only(shell: ShellState, created: isize, hwnd: isize)
    ensures
        created != 0 ==> (shell.with_message_window(Some(created)).is_message_only(hwnd)
            <==> hwnd == created),
        created == 0 ==> shell.with_message_window(Some(created)) == shell,
        shell.with_message_window(None) == shell,
{
}

} // verus!
