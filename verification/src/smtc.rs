//! Attaching the player to the system media transport controls.
use vstd::prelude::*;

verus! {

/// A part of the transport controls that is switched on.
#[derive(Debug, Clone, Copy, PartialEq, Eq, Structural)]
pub enum SmtcControl {
    /// The controls as a whole.
    Controls,
    Play,
    Pause,
    Next,
    Previous,
    Stop,
}

/// A step in attaching the transport controls to a window.
#[derive(Debug, Clone, Copy, PartialEq, Eq, Structural)]
pub enum SmtcStage {
    /// Find the factory of the controls.
    GetActivationFactory,
    /// Get the controls of the window.
    GetForWindow,
    Enable(SmtcControl),
    /// Register for pressed buttons.
    HandleButtons,
    /// Register for requested playback positions.
    HandlePositionChanges,
    /// Make the controls known to the rest of the player. Fails when other
    /// controls have been made known meanwhile.
    Publish,
    /// Put the thumbnail toolbar in place, for a player in this state.
    SetupTaskbar { playing: bool },
    ReportInitialised,
    ReportFailure,
    Done,
}

/// The steps of an attachment in which nothing fails. The toolbar starts out as
/// that of a paused player.
pub open spec fn smtc_script() -> Seq<SmtcStage> {
    seq![
        SmtcStage::GetActivationFactory,
        SmtcStage::GetForWindow,
        SmtcStage::Enable(SmtcControl::Controls),
        SmtcStage::Enable(SmtcControl::Play),
        SmtcStage::Enable(SmtcControl::Pause),
        SmtcStage::Enable(SmtcControl::Next),
        SmtcStage::Enable(SmtcControl::Previous),
        SmtcStage::Enable(SmtcControl::Stop),
        SmtcStage::HandleButtons,
        SmtcStage::HandlePositionChanges,
        SmtcStage::Publish,
        SmtcStage::SetupTaskbar { playing: false },
        SmtcStage::ReportInitialised,
        SmtcStage::Done,
    ]
}

/// Where a stage stands in the script. The report of a failure and the end
/// share the last place.
pub open spec fn script_index(stage: SmtcStage) -> int {
    match stage {
        SmtcStage::GetActivationFactory => 0,
        SmtcStage::GetForWindow => 1,
        SmtcStage::Enable(SmtcControl::Controls) => 2,
        SmtcStage::Enable(SmtcControl::Play) => 3,
        SmtcStage::Enable(SmtcControl::Pause) => 4,
        SmtcStage::Enable(SmtcControl::Next) => 5,
        SmtcStage::Enable(SmtcControl::Previous) => 6,
        SmtcStage::Enable(SmtcControl::Stop) => 7,
        SmtcStage::HandleButtons => 8,
        SmtcStage::HandlePositionChanges => 9,
        SmtcStage::Publish => 10,
        SmtcStage::SetupTaskbar { .. } => 11,
        SmtcStage::ReportInitialised => 12,
        SmtcStage::ReportFailure | SmtcStage::Done => 13,
    }
}

/// The step after a step that ended well or not. A failure before the controls
/// are published is reported; controls that come too late are dropped
/// silently; what follows the publication cannot fail.
pub open spec fn next_smtc_stage(stage: SmtcStage, ok: bool) -> SmtcStage {
    if script_index(stage) == 13 {
        SmtcStage::Done
    } else if ok || script_index(stage) > 10 {
        smtc_script()[script_index(stage) + 1]
    } else if stage == SmtcStage::Publish {
        SmtcStage::Done
    } else {
        SmtcStage::ReportFailure
    }
}

/// The first step of attaching the controls: none when they are there already.
pub fn setup_smtc(smtc_ready: bool) -> (stage: SmtcStage)
    ensures
        stage == (if smtc_ready {
            SmtcStage::Done
        } else {
            SmtcStage::GetActivationFactory
        }),
{
    if smtc_ready {
        SmtcStage::Done
    } else {
        SmtcStage::GetActivationFactory
    }
}

impl SmtcStage {
    /// The step after this one, which ended well or not.
    pub fn next(self, ok: bool) -> (stage: SmtcStage)
        ensures
            stage == next_smtc_stage(self, ok),
            stage == (match self {
                SmtcStage::Publish => if ok {
                    SmtcStage::SetupTaskbar { playing: false }
                } else {
                    SmtcStage::Done
                },
                SmtcStage::SetupTaskbar { .. } => SmtcStage::ReportInitialised,
                SmtcStage::ReportInitialised | SmtcStage::ReportFailure | SmtcStage::Done =>
                    SmtcStage::Done,
                _ => if !ok {
                    SmtcStage::ReportFailure
                } else {
                    match self {
                        SmtcStage::GetActivationFactory => SmtcStage::GetForWindow,
                        SmtcStage::GetForWindow => SmtcStage::Enable(SmtcControl::Controls),
                        SmtcStage::Enable(SmtcControl::Controls) => SmtcStage::Enable(
                            SmtcControl::Play,
                        ),
                        SmtcStage::Enable(SmtcControl::Play) => SmtcStage::Enable(
                            SmtcControl::Pause,
                        ),
                        SmtcStage::Enable(SmtcControl::Pause) => SmtcStage::Enable(
                            SmtcControl::Next,
                        ),
                        SmtcStage::Enable(SmtcControl::Next) => SmtcStage::Enable(
                            SmtcControl::Previous,
                        ),
                        SmtcStage::Enable(SmtcControl::Previous) => SmtcStage::Enable(
                            SmtcControl::Stop,
                        ),
                        SmtcStage::Enable(SmtcControl::Stop) => SmtcStage::HandleButtons,
                        SmtcStage::HandleButtons => SmtcStage::HandlePositionChanges,
                        _ => SmtcStage::Publish,
                    }
                },
            }),
    {
        match self {
            SmtcStage::Publish => {
                if ok {
                    SmtcStage::SetupTaskbar { playing: false }
                } else {
                    SmtcStage::Done
                }
            },
            SmtcStage::SetupTaskbar { .. } => SmtcStage::ReportInitialised,
            SmtcStage::ReportInitialised | SmtcStage::ReportFailure | SmtcStage::Done =>
                SmtcStage::Done,
            _ => {
                if !ok {
                    return SmtcStage::ReportFailure;
                }
                match self {
                    SmtcStage::GetActivationFactory => SmtcStage::GetForWindow,
                    SmtcStage::GetForWindow => SmtcStage::Enable(SmtcControl::Controls),
                    SmtcStage::Enable(control) => match control {
                        SmtcControl::Controls => SmtcStage::Enable(SmtcControl::Play),
                        SmtcControl::Play => SmtcStage::Enable(SmtcControl::Pause),
                        SmtcControl::Pause => SmtcStage::Enable(SmtcControl::Next),
                        SmtcControl::Next => SmtcStage::Enable(SmtcControl::Previous),
                        SmtcControl::Previous => SmtcStage::Enable(SmtcControl::Stop),
                        SmtcControl::Stop => SmtcStage::HandleButtons,
                    },
                    SmtcStage::HandleButtons => SmtcStage::HandlePositionChanges,
                    _ => SmtcStage::Publish,
                }
            },
        }
    }
}

/// A step of the thread that attaches the controls.
#[derive(Debug, Clone, Copy, PartialEq, Eq, Structural)]
pub enum WorkerStage {
    /// Initialise COM for the thread. It is no matter how that ends.
    InitialiseCom,
    /// Look for the player's window.
    FindWindow,
    /// Attach the controls to the window.
    AttachControls(isize),
    /// Report that there is no window.
    ReportNoWindow,
    Done,
}

/// The step after a step of the thread, where `found` is the window that the
/// search gave.
pub open spec fn next_worker_stage(stage: WorkerStage, found: Option<isize>) -> WorkerStage {
    match stage {
        WorkerStage::InitialiseCom => WorkerStage::FindWindow,
        WorkerStage::FindWindow => match found {
            Some(hwnd) => WorkerStage::AttachControls(hwnd),
            None => WorkerStage::ReportNoWindow,
        },
        _ => WorkerStage::Done,
    }
}

impl WorkerStage {
    /// The step after this one. Only the outcome of the window search is
    /// looked at.
    pub fn next(self, found: Option<isize>) -> (stage: WorkerStage)
        ensures
            stage == next_worker_stage(self, found),
            self == WorkerStage::InitialiseCom ==> stage == WorkerStage::FindWindow,
            self == WorkerStage::FindWindow ==> (found matches Some(hwnd) ==> stage
                == WorkerStage::AttachControls(hwnd)),
            self == WorkerStage::FindWindow && found is None ==> stage
                == WorkerStage::ReportNoWindow,
            self != WorkerStage::InitialiseCom && self != WorkerStage::FindWindow ==> stage
                == WorkerStage::Done,
    {
        match self {
            WorkerStage::InitialiseCom => WorkerStage::FindWindow,
            WorkerStage::FindWindow => match found {
                Some(hwnd) => WorkerStage::AttachControls(hwnd),
                None => WorkerStage::ReportNoWindow,
            },
            WorkerStage::AttachControls(_) | WorkerStage::ReportNoWindow | WorkerStage::Done =>
                WorkerStage::Done,
        }
    }
}

/// Decides whether to start the thread that attaches the controls, notes that
/// it was started, and gives its first step. It is not started when the
/// controls are there already, nor a second time.
pub fn init(smtc_ready: bool, started: &mut bool) -> (worker: Option<WorkerStage>)
    ensures
        worker == (if smtc_ready || *old(started) {
            None
        } else {
            Some(WorkerStage::InitialiseCom)
        }),
        *final(started) == (*old(started) || worker is Some),
{
    if smtc_ready || *started {
        None
    } else {
        *started = true;
        Some(WorkerStage::InitialiseCom)
    }
}

/// The stage after a run of step outcomes.
pub open spec fn smtc_run(stage: SmtcStage, oks: Seq<bool>) -> SmtcStage
    decreases oks.len(),
{
    if oks.len() == 0 {
        stage
    } else {
        next_smtc_stage(smtc_run(stage, oks.drop_last()), oks.last())
    }
}

/// While every step succeeds, the script is followed in order.
pub proof fn success_follows_script(oks: Seq<bool>)
    requires
        oks.len() < smtc_script().len(),
        forall|i: int| 0 <= i < oks.len() ==> #[trigger] oks[i],
    ensures
        smtc_run(SmtcStage::GetActivationFactory, oks) == smtc_script()[oks.len() as int],
    decreases oks.len(),
{
    if oks.len() > 0 {
        let front = oks.drop_last();
        assert forall|i: int| 0 <= i < front.len() implies #[trigger] front[i] by {
            assert(oks[i]);
        }
        success_follows_script(front);
        script_index_is_place(front.len() as int);
        assert(oks[oks.len() - 1]);
    }
}

proof fn script_index_is_place(k: int)
    requires
        0 <= k < smtc_script().len(),
    ensures
        script_index(smtc_script()[k]) == k,
{
}

/// The controls are published only after every step before has succeeded; each
/// part has then been switched on and both handlers are registered.
pub proof fn published_controls_are_complete(oks: Seq<bool>)
    requires
        smtc_run(SmtcStage::GetActivationFactory, oks) == SmtcStage::Publish,
    ensures
        oks.len() == 10,
        forall|i: int| 0 <= i < oks.len() ==> #[trigger] oks[i],
        forall|i: int|
            0 <= i <= 10 ==> #[trigger] smtc_run(SmtcStage::GetActivationFactory, oks.take(i))
                == smtc_script()[i],
{
    reached_in_order(oks);
    assert forall|i: int| 0 <= i <= 10 implies #[trigger] smtc_run(
        SmtcStage::GetActivationFactory,
        oks.take(i),
    ) == smtc_script()[i] by {
        let part = oks.take(i);
        assert forall|j: int| 0 <= j < part.len() implies #[trigger] part[j] by {
            assert(oks[j]);
        }
        success_follows_script(part);
    }
}

proof fn reached_in_order(oks: Seq<bool>)
    requires
        script_index(smtc_run(SmtcStage::GetActivationFactory, oks)) <= 10,
    ensures
        oks.len() == script_index(smtc_run(SmtcStage::GetActivationFactory, oks)),
        forall|i: int| 0 <= i < oks.len() ==> #[trigger] oks[i],
    decreases oks.len(),
{
    if oks.len() > 0 {
        let front = oks.drop_last();
        let before = smtc_run(SmtcStage::GetActivationFactory, front);
        if script_index(before) < 13 {
            script_index_is_place(script_index(before) + 1);
        }
        assert(script_index(before) <= 10);
        reached_in_order(front);
        assert forall|i: int| 0 <= i < oks.len() implies #[trigger] oks[i] by {
            if i < front.len() {
                assert(front[i]);
            }
        }
    }
}

/// A failure before the publication is reported, and nothing follows the
/// report.
pub proof fn early_failure_is_reported(stage: SmtcStage)
    requires
        script_index(stage) < 10,
    ensures
        next_smtc_stage(stage, false) == SmtcStage::ReportFailure,
        forall|ok: bool|
            #[trigger] next_smtc_stage(SmtcStage::ReportFailure, ok) == SmtcStage::Done,
{
}

/// Whether the thread was started after a run of calls of `init`, each given
/// by whether the controls were there.
pub open spec fn started_after(calls: Seq<bool>) -> bool
    decreases calls.len(),
{
    if calls.len() == 0 {
        false
    } else {
        started_after(calls.drop_last()) || !calls.last()
    }
}

/// How often the thread is started over a run of calls of `init`.
pub open spec fn spawn_count(calls: Seq<bool>) -> nat
    decreases calls.len(),
{
    if calls.len() == 0 {
        0
    } else {
        spawn_count(calls.drop_last()) + (if !calls.last() && !started_after(calls.drop_last()) {
            1nat
        } else {
            0nat
        })
    }
}

/// However often `init` is called, the thread is started at most once, and it
/// is started as soon as one call finds the controls missing.
pub proof fn thread_is_started_once(calls: Seq<bool>)
    ensures
        spawn_count(calls) == (if started_after(calls) {
            1nat
        } else {
            0nat
        }),
        started_after(calls) <==> exists|i: int| 0 <= i < calls.len() && !#[trigger] calls[i],
    decreases calls.len(),
{
    if calls.len() > 0 {
        let front = calls.drop_last();
        thread_is_started_once(front);
        if started_after(calls) {
            if !calls.last() {
                assert(!calls[calls.len() - 1]);
            } else {
                let i = choose|i: int| 0 <= i < front.len() && !#[trigger] front[i];
                assert(!calls[i]);
            }
        }
        if exists|i: int| 0 <= i < calls.len() && !#[trigger] calls[i] {
            let i = choose|i: int| 0 <= i < calls.len() && !#[trigger] calls[i];
            if i < front.len() {
                assert(!front[i]);
            }
        }
    }
}

/// The steps that the thread takes, from the given one on, when the search
/// gives `found`.
pub open spec fn worker_steps(stage: WorkerStage, found: Option<isize>) -> Seq<WorkerStage>
    decreases worker_steps_left(stage),
{
    if stage == WorkerStage::Done {
        Seq::empty()
    } else {
        seq![stage] + worker_steps(next_worker_stage(stage, found), found)
    }
}

/// How many steps the thread can still take.
pub open spec fn worker_steps_left(stage: WorkerStage) -> nat {
    match stage {
        WorkerStage::InitialiseCom => 3,
        WorkerStage::FindWindow => 2,
        WorkerStage::AttachControls(_) | WorkerStage::ReportNoWindow => 1,
        WorkerStage::Done => 0,
    }
}

/// The thread initialises COM first, then looks for the window once, and then
/// attaches the controls to the window that was found, or reports that there
/// is none. It attaches exactly when a window was found.
pub proof fn thread_attaches_to_found_window(found: Option<isize>)
    ensures
        worker_steps(WorkerStage::InitialiseCom, found) == seq![
            WorkerStage::InitialiseCom,
            WorkerStage::FindWindow,
            match found {
                Some(hwnd) => WorkerStage::AttachControls(hwnd),
                None => WorkerStage::ReportNoWindow,
            },
        ],
        forall|hwnd: isize|
            #[trigger] worker_steps(WorkerStage::InitialiseCom, found).contains(
                WorkerStage::AttachControls(hwnd),
            ) <==> found == Some(hwnd),
{
    reveal_with_fuel(worker_steps, 4);
    let steps = worker_steps(WorkerStage::InitialiseCom, found);
    let last = match found {
        Some(hwnd) => WorkerStage::AttachControls(hwnd),
        None => WorkerStage::ReportNoWindow,
    };
    assert(steps =~= seq![WorkerStage::InitialiseCom, WorkerStage::FindWindow, last]);
    assert forall|hwnd: isize| #[trigger] steps.contains(WorkerStage::AttachControls(hwnd))
        <==> found == Some(hwnd) by {
        if found == Some(hwnd) {
            assert(steps[2] == WorkerStage::AttachControls(hwnd));
        }
    }
}

/// What fails before the publication is reported, controls that come too late
/// are dropped without a report, and nothing else looks at how a step ended.
pub proof fn failures_by_stage(stage: SmtcStage)
    ensures
        next_smtc_stage(stage, false) == SmtcStage::ReportFailure <==> stage
            == SmtcStage::GetActivationFactory || stage == SmtcStage::GetForWindow
            || stage is Enable || stage == SmtcStage::HandleButtons || stage
            == SmtcStage::HandlePositionChanges,
        next_smtc_stage(SmtcStage::Publish, false) == SmtcStage::Done,
        stage is SetupTaskbar || stage == SmtcStage::ReportInitialised || stage
            == SmtcStage::ReportFailure || stage == SmtcStage::Done ==> next_smtc_stage(
            stage,
            false,
        ) == next_smtc_stage(stage, true),
{
}

/// The toolbar is put in place after the publication and at no other time, as
/// that of a paused player; it is followed by the report of success.
pub proof fn toolbar_follows_publication(stage: SmtcStage, ok: bool, playing: bool)
    ensures
        next_smtc_stage(stage, ok) == (SmtcStage::SetupTaskbar { playing }) <==> stage
            == SmtcStage::Publish && ok && !playing,
        next_smtc_stage(stage, ok) == SmtcStage::ReportInitialised <==> stage is SetupTaskbar,
        next_smtc_stage(SmtcStage::ReportInitialised, ok) == SmtcStage::Done,
{
}

/// By the time the controls are published, whatever part of them one asks for
/// has been switched on, and both handlers have been registered, each with
/// success.
pub proof fn published_controls_are_switched_on(oks: Seq<bool>, control: SmtcControl)
    requires
        smtc_run(SmtcStage::GetActivationFactory, oks) == SmtcStage::Publish,
    ensures
        exists|i: int|
            0 <= i < oks.len() && oks[i] && #[trigger] smtc_run(
                SmtcStage::GetActivationFactory,
                oks.take(i),
            ) == SmtcStage::Enable(control),
        exists|i: int|
            0 <= i < oks.len() && oks[i] && #[trigger] smtc_run(
                SmtcStage::GetActivationFactory,
                oks.take(i),
            ) == SmtcStage::HandleButtons,
        exists|i: int|
            0 <= i < oks.len() && oks[i] && #[trigger] smtc_run(
                SmtcStage::GetActivationFactory,
                oks.take(i),
            ) == SmtcStage::HandlePositionChanges,
{
    published_controls_are_complete(oks);
    let place = script_index(SmtcStage::Enable(control));
    assert(oks[place] && smtc_run(SmtcStage::GetActivationFactory, oks.take(place))
        == SmtcStage::Enable(control));
    assert(oks[8] && smtc_run(SmtcStage::GetActivationFactory, oks.take(8))
        == SmtcStage::HandleButtons);
    assert(oks[9] && smtc_run(SmtcStage::GetActivationFactory, oks.take(9))
        == SmtcStage::HandlePositionChanges);
}

} // verus!
