use kopuz::now_playing::{
    artwork_source, fetch_artwork_bytes, on_artwork_response, update_now_playing, ArtworkFetch,
    ArtworkSource, CoverStage, NowPlayingStage, PlaybackStatus, Timeline, TrackTexts,
};
use kopuz::smtc::{init, setup_smtc, SmtcControl, SmtcStage, WorkerStage};

#[test]
fn attachment_without_failures() {
    let mut stage = setup_smtc(false);
    let mut stages = Vec::new();
    while stage != SmtcStage::Done {
        stages.push(stage);
        stage = stage.next(true);
    }
    assert_eq!(
        stages,
        vec![
            SmtcStage::GetActivationFactory,
            SmtcStage::GetForWindow,
            SmtcStage::Enable(SmtcControl::Controls),
            SmtcStage::Enable(SmtcControl::Play),
            SmtcStage::Enable(SmtcControl::Pause),
            SmtcStage::Enable(SmtcControl::Next),
            SmtcStage::Enable(SmtcControl::Previous),
            SmtcStage::Enable(SmtcControl::Stop),
            SmtcStage::HandleButtons,
            SmtcStage::HandlePositionChanges,
            SmtcStage::Publish,
            SmtcStage::SetupTaskbar { playing: false },
            SmtcStage::ReportInitialised,
        ]
    );
}

#[test]
fn attachment_failures() {
    assert_eq!(setup_smtc(true), SmtcStage::Done);
    assert_eq!(SmtcStage::GetForWindow.next(false), SmtcStage::ReportFailure);
    assert_eq!(SmtcStage::Enable(SmtcControl::Stop).next(false), SmtcStage::ReportFailure);
    assert_eq!(SmtcStage::HandlePositionChanges.next(false), SmtcStage::ReportFailure);
    assert_eq!(SmtcStage::ReportFailure.next(true), SmtcStage::Done);
    // Controls that come too late are dropped silently.
    assert_eq!(SmtcStage::Publish.next(false), SmtcStage::Done);
    assert_eq!(SmtcStage::SetupTaskbar { playing: false }.next(false), SmtcStage::ReportInitialised);
    assert_eq!(SmtcStage::Done.next(true), SmtcStage::Done);
}

#[test]
fn thread_is_started_once() {
    let mut started = false;
    assert_eq!(init(true, &mut started), None);
    assert!(!started);
    assert_eq!(init(false, &mut started), Some(WorkerStage::InitialiseCom));
    assert!(started);
    assert_eq!(init(false, &mut started), None);
    assert_eq!(init(true, &mut started), None);
    assert!(started);
}

#[test]
fn thread_attaches_to_the_window_it_found() {
    let stage = WorkerStage::InitialiseCom.next(None);
    assert_eq!(stage, WorkerStage::FindWindow);
    assert_eq!(stage.next(Some(42)), WorkerStage::AttachControls(42));
    assert_eq!(stage.next(None), WorkerStage::ReportNoWindow);
    assert_eq!(WorkerStage::AttachControls(42).next(Some(42)), WorkerStage::Done);
    assert_eq!(WorkerStage::ReportNoWindow.next(None), WorkerStage::Done);
    assert_eq!(WorkerStage::Done.next(Some(1)), WorkerStage::Done);
}

fn cover_stages(failing: Option<CoverStage>) -> Vec<CoverStage> {
    let mut stage = CoverStage::Fetch;
    let mut stages = Vec::new();
    while stage != CoverStage::Done {
        stages.push(stage);
        stage = stage.next(Some(stage) != failing);
    }
    stages
}

#[test]
fn background_cover() {
    let all = vec![
        CoverStage::Fetch,
        CoverStage::OpenStream,
        CoverStage::OpenDisplay,
        CoverStage::ShowArtwork,
        CoverStage::CommitDisplay,
    ];
    assert_eq!(cover_stages(None), all);
    assert_eq!(cover_stages(Some(CoverStage::ShowArtwork)), all);
    assert_eq!(cover_stages(Some(CoverStage::Fetch)), vec![CoverStage::Fetch]);
    assert_eq!(
        cover_stages(Some(CoverStage::OpenStream)),
        vec![CoverStage::Fetch, CoverStage::OpenStream]
    );
    assert_eq!(
        cover_stages(Some(CoverStage::OpenDisplay)),
        vec![CoverStage::Fetch, CoverStage::OpenStream, CoverStage::OpenDisplay]
    );
}

#[test]
fn artwork_sources() {
    assert_eq!(artwork_source("http://host/a.png"), ArtworkSource::Url);
    assert_eq!(artwork_source("https://host/a.png"), ArtworkSource::Url);
    assert_eq!(artwork_source("https:/host"), ArtworkSource::File);
    assert_eq!(artwork_source("/covers/http://a.png"), ArtworkSource::File);
    assert_eq!(artwork_source("HTTPS://host"), ArtworkSource::File);
    assert_eq!(artwork_source(""), ArtworkSource::File);
}

#[test]
fn artwork_bytes() {
    assert_eq!(fetch_artwork_bytes("https://host/a.png"), ArtworkFetch::Get);
    assert_eq!(fetch_artwork_bytes("C:\\covers\\a.png"), ArtworkFetch::ReadFile);
    for status in [200, 204, 299] {
        assert_eq!(on_artwork_response(status), ArtworkFetch::ReadBody);
    }
    for status in [0, 99, 100, 199, 300, 404, 500, 999, 1000, 65535] {
        assert_eq!(on_artwork_response(status), ArtworkFetch::GiveUp);
    }
}

const TEXTS: TrackTexts<'static> =
    TrackTexts { title: "the title", artist: "the artist", album: "the album" };

fn stages(
    ready: bool,
    playing: bool,
    art: Option<&'static str>,
    span: Option<(i64, i64)>,
    failing: &[NowPlayingStage<'static>],
) -> Vec<NowPlayingStage<'static>> {
    let mut update =
        update_now_playing(ready, "the title", "the artist", "the album", span, playing, art);
    let mut stages = Vec::new();
    while update.stage != NowPlayingStage::Done {
        stages.push(update.stage);
        let ok = !failing.contains(&update.stage);
        update.advance(ok);
    }
    stages
}

#[test]
fn full_update_with_web_cover() {
    assert_eq!(
        stages(true, true, Some("https://host/a.png"), Some((1_800_000_000, 50)), &[]),
        vec![
            NowPlayingStage::SetStatus(PlaybackStatus::Playing),
            NowPlayingStage::OpenDisplay,
            NowPlayingStage::SetMusicType,
            NowPlayingStage::OpenMusicProperties,
            NowPlayingStage::SetTexts(TEXTS),
            NowPlayingStage::CreateArtworkUri("https://host/a.png"),
            NowPlayingStage::OpenArtworkUri,
            NowPlayingStage::ShowArtwork,
            NowPlayingStage::CommitDisplay,
            NowPlayingStage::FindWindow,
            NowPlayingStage::RefreshButtons,
            NowPlayingStage::OpenTimeline,
            NowPlayingStage::PushTimeline(Timeline {
                start: 0,
                end: 1_800_000_000,
                position: 50,
                min_seek: 0,
                max_seek: 1_800_000_000,
            }),
        ]
    );
}

#[test]
fn update_with_file_cover_and_no_duration() {
    assert_eq!(
        stages(false, false, Some("/covers/a.png"), None, &[]),
        vec![
            NowPlayingStage::Initialise,
            NowPlayingStage::SetStatus(PlaybackStatus::Paused),
            NowPlayingStage::OpenDisplay,
            NowPlayingStage::SetMusicType,
            NowPlayingStage::OpenMusicProperties,
            NowPlayingStage::SetTexts(TEXTS),
            NowPlayingStage::LoadArtworkFile("/covers/a.png"),
            NowPlayingStage::CommitDisplay,
            NowPlayingStage::FindWindow,
            NowPlayingStage::RefreshButtons,
        ]
    );
}

#[test]
fn update_without_controls() {
    assert_eq!(
        stages(false, true, None, Some((1, 0)), &[NowPlayingStage::Initialise]),
        vec![NowPlayingStage::Initialise]
    );
}

#[test]
fn parts_that_fail_are_left_out() {
    assert_eq!(
        stages(
            true,
            true,
            Some("http://host/a.png"),
            Some((5, 1)),
            &[NowPlayingStage::OpenDisplay, NowPlayingStage::FindWindow, NowPlayingStage::OpenTimeline]
        ),
        vec![
            NowPlayingStage::SetStatus(PlaybackStatus::Playing),
            NowPlayingStage::OpenDisplay,
            NowPlayingStage::FindWindow,
            NowPlayingStage::OpenTimeline,
        ]
    );
    assert_eq!(
        stages(
            true,
            false,
            Some("http://host/a.png"),
            None,
            &[NowPlayingStage::OpenMusicProperties, NowPlayingStage::CreateArtworkUri("http://host/a.png")]
        ),
        vec![
            NowPlayingStage::SetStatus(PlaybackStatus::Paused),
            NowPlayingStage::OpenDisplay,
            NowPlayingStage::SetMusicType,
            NowPlayingStage::OpenMusicProperties,
            NowPlayingStage::CreateArtworkUri("http://host/a.png"),
            NowPlayingStage::CommitDisplay,
            NowPlayingStage::FindWindow,
            NowPlayingStage::RefreshButtons,
        ]
    );
    assert_eq!(
        stages(true, false, Some("http://host/a.png"), None, &[NowPlayingStage::OpenArtworkUri]),
        vec![
            NowPlayingStage::SetStatus(PlaybackStatus::Paused),
            NowPlayingStage::OpenDisplay,
            NowPlayingStage::SetMusicType,
            NowPlayingStage::OpenMusicProperties,
            NowPlayingStage::SetTexts(TEXTS),
            NowPlayingStage::CreateArtworkUri("http://host/a.png"),
            NowPlayingStage::OpenArtworkUri,
            NowPlayingStage::CommitDisplay,
            NowPlayingStage::FindWindow,
            NowPlayingStage::RefreshButtons,
        ]
    );
}
