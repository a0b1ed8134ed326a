//! Showing the current track: playback state, texts, cover and timeline.
use crate::text::{self, starts_with};
use vstd::prelude::*;

verus! {

/// Whether the player plays.
#[derive(Debug, Clone, Copy, PartialEq, Eq, Structural)]
pub enum PlaybackStatus {
    Playing,
    Paused,
}

/// The playback state that the system shows.
pub open spec fn status_spec(playing: bool) -> PlaybackStatus {
    if playing {
        PlaybackStatus::Playing
    } else {
        PlaybackStatus::Paused
    }
}

/// Where a cover comes from.
#[derive(Debug, Clone, Copy, PartialEq, Eq, Structural)]
pub enum ArtworkSource {
    /// A web address, which the system can fetch by itself.
    Url,
    /// A file that the player has to read.
    File,
}

/// A path is a web address when it begins with `http://` or `https://`.
pub open spec fn source_spec(path: Seq<char>) -> ArtworkSource {
    if text::begins_with(path, "http://"@) || text::begins_with(path, "https://"@) {
        ArtworkSource::Url
    } else {
        ArtworkSource::File
    }
}

/// Tells where a cover comes from.
pub fn artwork_source(path: &str) -> (source: ArtworkSource)
    ensures
        source == source_spec(path@),
        source == ArtworkSource::Url <==> "http://"@.is_prefix_of(path@)
            || "https://"@.is_prefix_of(path@),
{
    proof {
        web_addresses_by_prefix(path@);
    }
    if starts_with(path, "http://") || starts_with(path, "https://") {
        ArtworkSource::Url
    } else {
        ArtworkSource::File
    }
}

/// A step in reading the bytes of a cover.
#[derive(Debug, Clone, Copy, PartialEq, Eq, Structural)]
pub enum ArtworkFetch {
    /// Ask the web server.
    Get,
    /// Take the body of the server's response.
    ReadBody,
    ReadFile,
    /// There is no cover to be had.
    GiveUp,
}

/// The first step in reading the bytes of a cover.
pub fn fetch_artwork_bytes(path: &str) -> (step: ArtworkFetch)
    ensures
        step == (match source_spec(path@) {
            ArtworkSource::Url => ArtworkFetch::Get,
            ArtworkSource::File => ArtworkFetch::ReadFile,
        }),
        step == (if "http://"@.is_prefix_of(path@) || "https://"@.is_prefix_of(path@) {
            ArtworkFetch::Get
        } else {
            ArtworkFetch::ReadFile
        }),
{
    match artwork_source(path) {
        ArtworkSource::Url => ArtworkFetch::Get,
        ArtworkSource::File => ArtworkFetch::ReadFile,
    }
}

/// `reqwest::StatusCode::is_success` of the status with the given number: true
/// for the numbers from 200 to 299. `StatusCode::from_u16` has no status for a
/// number below 100 or above 999, and such a number is no success.
#[verifier::external_body]
fn is_success(status: u16) -> (yes: bool)
    ensures
        yes == (200 <= status < 300),
{
    match reqwest::StatusCode::from_u16(status) {
        Ok(code) => code.is_success(),
        Err(_) => false,
    }
}

/// The step after the web server has answered with a status: only the body of
/// a successful response is a cover.
pub fn on_artwork_response(status: u16) -> (step: ArtworkFetch)
    ensures
        step == (if 200 <= status < 300 {
            ArtworkFetch::ReadBody
        } else {
            ArtworkFetch::GiveUp
        }),
{
    if is_success(status) {
        ArtworkFetch::ReadBody
    } else {
        ArtworkFetch::GiveUp
    }
}

/// A step in showing a cover that is read in the background.
#[derive(Debug, Clone, Copy, PartialEq, Eq, Structural)]
pub enum CoverStage {
    /// Read the bytes of the cover.
    Fetch,
    /// Wrap the bytes in a stream.
    OpenStream,
    /// Open the display updater.
    OpenDisplay,
    /// Show the stream as the cover.
    ShowArtwork,
    /// Make the changed display visible.
    CommitDisplay,
    Done,
}

/// The step after a step that ended well or not: what cannot be had ends the
/// matter, and a cover that was set is made visible in any case.
pub open spec fn next_cover_stage(stage: CoverStage, ok: bool) -> CoverStage {
    match stage {
        CoverStage::Fetch if ok => CoverStage::OpenStream,
        CoverStage::OpenStream if ok => CoverStage::OpenDisplay,
        CoverStage::OpenDisplay if ok => CoverStage::ShowArtwork,
        CoverStage::ShowArtwork => CoverStage::CommitDisplay,
        _ => CoverStage::Done,
    }
}

impl CoverStage {
    /// The step after this one, which ended well or not.
    pub fn next(self, ok: bool) -> (stage: CoverStage)
        ensures
            stage == next_cover_stage(self, ok),
            self == CoverStage::ShowArtwork ==> stage == CoverStage::CommitDisplay,
            self == CoverStage::CommitDisplay || self == CoverStage::Done ==> stage
                == CoverStage::Done,
            self == CoverStage::Fetch && ok ==> stage == CoverStage::OpenStream,
            self == CoverStage::OpenStream && ok ==> stage == CoverStage::OpenDisplay,
            self == CoverStage::OpenDisplay && ok ==> stage == CoverStage::ShowArtwork,
            self != CoverStage::ShowArtwork && !ok ==> stage == CoverStage::Done,
    {
        match self {
            CoverStage::Fetch => {
                if ok {
                    CoverStage::OpenStream
                } else {
                    CoverStage::Done
                }
            },
            CoverStage::OpenStream => {
                if ok {
                    CoverStage::OpenDisplay
                } else {
                    CoverStage::Done
                }
            },
            CoverStage::OpenDisplay => {
                if ok {
                    CoverStage::ShowArtwork
                } else {
                    CoverStage::Done
                }
            },
            CoverStage::ShowArtwork => CoverStage::CommitDisplay,
            CoverStage::CommitDisplay | CoverStage::Done => CoverStage::Done,
        }
    }
}

/// The position in a track and the range that can be sought, in ticks of 100
/// nanoseconds.
#[derive(Debug, Clone, Copy, PartialEq, Eq, Structural)]
pub struct Timeline {
    pub start: i64,
    pub end: i64,
    pub position: i64,
    pub min_seek: i64,
    pub max_seek: i64,
}

/// The timeline of a track: all of it can be sought.
pub open spec fn timeline_spec(duration: i64, position: i64) -> Timeline {
    Timeline { start: 0, end: duration, position, min_seek: 0, max_seek: duration }
}

/// The texts of a track.
#[derive(Debug, Clone, Copy, PartialEq, Eq)]
pub struct TrackTexts<'a> {
    pub title: &'a str,
    pub artist: &'a str,
    pub album: &'a str,
}

/// A cover and where it comes from.
#[derive(Debug, Clone, Copy, PartialEq, Eq)]
pub struct Artwork<'a> {
    pub path: &'a str,
    pub source: ArtworkSource,
}

/// The cover that a path names.
pub open spec fn artwork_spec<'a>(path: &'a str) -> Artwork<'a> {
    Artwork { path, source: source_spec(path@) }
}

/// A step in showing the current track.
#[derive(Debug, Clone, Copy, PartialEq, Eq)]
pub enum NowPlayingStage<'a> {
    /// Attach the transport controls, which are missing. Succeeds when they
    /// are there afterwards.
    Initialise,
    SetStatus(PlaybackStatus),
    /// Open the display updater.
    OpenDisplay,
    /// Declare the display to be that of music.
    SetMusicType,
    OpenMusicProperties,
    /// Show title, artist and album.
    SetTexts(TrackTexts<'a>),
    /// Turn the cover's address into an address object.
    CreateArtworkUri(&'a str),
    /// Turn the address object into a stream reference.
    OpenArtworkUri,
    /// Show the stream as the cover.
    ShowArtwork,
    /// Have the cover's file read and shown in the background.
    LoadArtworkFile(&'a str),
    /// Make the changed display visible.
    CommitDisplay,
    /// Look for the player's window.
    FindWindow,
    /// Refresh the thumbnail toolbar of the window that was found.
    RefreshButtons,
    OpenTimeline,
    PushTimeline(Timeline),
    Done,
}

/// An update of what is shown, while it is carried out.
#[derive(Debug, Clone, Copy, PartialEq, Eq)]
pub struct NowPlaying<'a> {
    pub texts: TrackTexts<'a>,
    pub playing: bool,
    pub artwork: Option<Artwork<'a>>,
    /// Missing for a track of unknown duration.
    pub timeline: Option<Timeline>,
    /// The step to take now.
    pub stage: NowPlayingStage<'a>,
}

impl<'a> NowPlaying<'a> {
    /// The step at which the cover is dealt with.
    pub open spec fn artwork_stage_spec(self) -> NowPlayingStage<'a> {
        match self.artwork {
            Some(artwork) => match artwork.source {
                ArtworkSource::Url => NowPlayingStage::CreateArtworkUri(artwork.path),
                ArtworkSource::File => NowPlayingStage::LoadArtworkFile(artwork.path),
            },
            None => NowPlayingStage::CommitDisplay,
        }
    }

    /// The step at which the timeline is dealt with.
    pub open spec fn timeline_stage_spec(self) -> NowPlayingStage<'a> {
        match self.timeline {
            Some(_) => NowPlayingStage::OpenTimeline,
            None => NowPlayingStage::Done,
        }
    }

    /// The step after the current one has ended well or not. A part of the
    /// display that cannot be had is left out, and the rest goes on.
    pub open spec fn next_stage(self, ok: bool) -> NowPlayingStage<'a> {
        match self.stage {
            NowPlayingStage::Initialise => if ok {
                NowPlayingStage::SetStatus(status_spec(self.playing))
            } else {
                NowPlayingStage::Done
            },
            NowPlayingStage::SetStatus(_) => NowPlayingStage::OpenDisplay,
            NowPlayingStage::OpenDisplay => if ok {
                NowPlayingStage::SetMusicType
            } else {
                NowPlayingStage::FindWindow
            },
            NowPlayingStage::SetMusicType => NowPlayingStage::OpenMusicProperties,
            NowPlayingStage::OpenMusicProperties => if ok {
                NowPlayingStage::SetTexts(self.texts)
            } else {
                self.artwork_stage_spec()
            },
            NowPlayingStage::SetTexts(_) => self.artwork_stage_spec(),
            NowPlayingStage::CreateArtworkUri(_) => if ok {
                NowPlayingStage::OpenArtworkUri
            } else {
                NowPlayingStage::CommitDisplay
            },
            NowPlayingStage::OpenArtworkUri => if ok {
                NowPlayingStage::ShowArtwork
            } else {
                NowPlayingStage::CommitDisplay
            },
            NowPlayingStage::ShowArtwork | NowPlayingStage::LoadArtworkFile(_) =>
                NowPlayingStage::CommitDisplay,
            NowPlayingStage::CommitDisplay => NowPlayingStage::FindWindow,
            NowPlayingStage::FindWindow => if ok {
                NowPlayingStage::RefreshButtons
            } else {
                self.timeline_stage_spec()
            },
            NowPlayingStage::RefreshButtons => self.timeline_stage_spec(),
            NowPlayingStage::OpenTimeline => match self.timeline {
                Some(timeline) if ok => NowPlayingStage::PushTimeline(timeline),
                _ => NowPlayingStage::Done,
            },
            NowPlayingStage::PushTimeline(_) | NowPlayingStage::Done => NowPlayingStage::Done,
        }
    }

    /// The update after the current step has ended well or not.
    pub open spec fn next(self, ok: bool) -> NowPlaying<'a> {
        NowPlaying { stage: self.next_stage(ok), ..self }
    }

    fn artwork_stage(&self) -> (stage: NowPlayingStage<'a>)
        ensures
            stage == self.artwork_stage_spec(),
    {
        match self.artwork {
            Some(artwork) => match artwork.source {
                ArtworkSource::Url => NowPlayingStage::CreateArtworkUri(artwork.path),
                ArtworkSource::File => NowPlayingStage::LoadArtworkFile(artwork.path),
            },
            None => NowPlayingStage::CommitDisplay,
        }
    }

    fn timeline_stage(&self) -> (stage: NowPlayingStage<'a>)
        ensures
            stage == self.timeline_stage_spec(),
    {
        match self.timeline {
            Some(_) => NowPlayingStage::OpenTimeline,
            None => NowPlayingStage::Done,
        }
    }

    /// Takes in whether the current step ended well.
    pub fn advance(&mut self, ok: bool)
        ensures
            *final(self) == old(self).next(ok),
            final(self).texts == old(self).texts,
            final(self).playing == old(self).playing,
            final(self).artwork == old(self).artwork,
            final(self).timeline == old(self).timeline,
            final(self).stage == ({
                let artwork_stage = match old(self).artwork {
                    Some(artwork) => if artwork.source == ArtworkSource::Url {
                        NowPlayingStage::CreateArtworkUri(artwork.path)
                    } else {
                        NowPlayingStage::LoadArtworkFile(artwork.path)
                    },
                    None => NowPlayingStage::CommitDisplay,
                };
                let timeline_stage = if old(self).timeline is Some {
                    NowPlayingStage::OpenTimeline
                } else {
                    NowPlayingStage::Done
                };
                match old(self).stage {
                    NowPlayingStage::Initialise => if !ok {
                        NowPlayingStage::Done
                    } else if old(self).playing {
                        NowPlayingStage::SetStatus(PlaybackStatus::Playing)
                    } else {
                        NowPlayingStage::SetStatus(PlaybackStatus::Paused)
                    },
                    NowPlayingStage::SetStatus(_) => NowPlayingStage::OpenDisplay,
                    NowPlayingStage::OpenDisplay => if ok {
                        NowPlayingStage::SetMusicType
                    } else {
                        NowPlayingStage::FindWindow
                    },
                    NowPlayingStage::SetMusicType => NowPlayingStage::OpenMusicProperties,
                    NowPlayingStage::OpenMusicProperties => if ok {
                        NowPlayingStage::SetTexts(old(self).texts)
                    } else {
                        artwork_stage
                    },
                    NowPlayingStage::SetTexts(_) => artwork_stage,
                    NowPlayingStage::CreateArtworkUri(_) => if ok {
                        NowPlayingStage::OpenArtworkUri
                    } else {
                        NowPlayingStage::CommitDisplay
                    },
                    NowPlayingStage::OpenArtworkUri => if ok {
                        NowPlayingStage::ShowArtwork
                    } else {
                        NowPlayingStage::CommitDisplay
                    },
                    NowPlayingStage::ShowArtwork | NowPlayingStage::LoadArtworkFile(_) =>
                        NowPlayingStage::CommitDisplay,
                    NowPlayingStage::CommitDisplay => NowPlayingStage::FindWindow,
                    NowPlayingStage::FindWindow => if ok {
                        NowPlayingStage::RefreshButtons
                    } else {
                        timeline_stage
                    },
                    NowPlayingStage::RefreshButtons => timeline_stage,
                    NowPlayingStage::OpenTimeline => if ok && old(self).timeline is Some {
                        NowPlayingStage::PushTimeline(old(self).timeline->0)
                    } else {
                        NowPlayingStage::Done
                    },
                    NowPlayingStage::PushTimeline(_) | NowPlayingStage::Done =>
                        NowPlayingStage::Done,
                }
            }),
    {
        self.stage = match self.stage {
            NowPlayingStage::Initialise => {
                if ok {
                    NowPlayingStage::SetStatus(playback_status(self.playing))
                } else {
                    NowPlayingStage::Done
                }
            },
            NowPlayingStage::SetStatus(_) => NowPlayingStage::OpenDisplay,
            NowPlayingStage::OpenDisplay => {
                if ok {
                    NowPlayingStage::SetMusicType
                } else {
                    NowPlayingStage::FindWindow
                }
            },
            NowPlayingStage::SetMusicType => NowPlayingStage::OpenMusicProperties,
            NowPlayingStage::OpenMusicProperties => {
                if ok {
                    NowPlayingStage::SetTexts(self.texts)
                } else {
                    self.artwork_stage()
                }
            },
            NowPlayingStage::SetTexts(_) => self.artwork_stage(),
            NowPlayingStage::CreateArtworkUri(_) => {
                if ok {
                    NowPlayingStage::OpenArtworkUri
                } else {
                    NowPlayingStage::CommitDisplay
                }
            },
            NowPlayingStage::OpenArtworkUri => {
                if ok {
                    NowPlayingStage::ShowArtwork
                } else {
                    NowPlayingStage::CommitDisplay
                }
            },
            NowPlayingStage::ShowArtwork | NowPlayingStage::LoadArtworkFile(_) => {
                NowPlayingStage::CommitDisplay
            },
            NowPlayingStage::CommitDisplay => NowPlayingStage::FindWindow,
            NowPlayingStage::FindWindow => {
                if ok {
                    NowPlayingStage::RefreshButtons
                } else {
                    self.timeline_stage()
                }
            },
            NowPlayingStage::RefreshButtons => self.timeline_stage(),
            NowPlayingStage::OpenTimeline => match self.timeline {
                Some(timeline) => {
                    if ok {
                        NowPlayingStage::PushTimeline(timeline)
                    } else {
                        NowPlayingStage::Done
                    }
                },
                None => NowPlayingStage::Done,
            },
            NowPlayingStage::PushTimeline(_) | NowPlayingStage::Done => NowPlayingStage::Done,
        };
    }
}

fn playback_status(playing: bool) -> (status: PlaybackStatus)
    ensures
        status == status_spec(playing),
{
    if playing {
        PlaybackStatus::Playing
    } else {
        PlaybackStatus::Paused
    }
}

/// The cover that an optional path names.
pub open spec fn path_artwork<'a>(artwork_path: Option<&'a str>) -> Option<Artwork<'a>> {
    match artwork_path {
        Some(path) => Some(artwork_spec(path)),
        None => None,
    }
}

/// The timeline of a track whose duration and position may be unknown.
pub open spec fn span_timeline(span: Option<(i64, i64)>) -> Option<Timeline> {
    match span {
        Some((duration, position)) => Some(timeline_spec(duration, position)),
        None => None,
    }
}

/// The start of an update.
pub open spec fn update_start<'a>(
    smtc_ready: bool,
    texts: TrackTexts<'a>,
    playing: bool,
    artwork: Option<Artwork<'a>>,
    timeline: Option<Timeline>,
) -> NowPlaying<'a> {
    NowPlaying {
        texts,
        playing,
        artwork,
        timeline,
        stage: if smtc_ready {
            NowPlayingStage::SetStatus(status_spec(playing))
        } else {
            NowPlayingStage::Initialise
        },
    }
}

/// Begins to show the current track. `span` holds its duration and the
/// position in it, in ticks, and is missing when the duration is not positive.
pub fn update_now_playing<'a>(
    smtc_ready: bool,
    title: &'a str,
    artist: &'a str,
    album: &'a str,
    span: Option<(i64, i64)>,
    playing: bool,
    artwork_path: Option<&'a str>,
) -> (update: NowPlaying<'a>)
    ensures
        update == update_start(
            smtc_ready,
            (TrackTexts { title, artist, album }),
            playing,
            path_artwork(artwork_path),
            span_timeline(span),
        ),
        update.texts.title == title,
        update.texts.artist == artist,
        update.texts.album == album,
        update.playing == playing,
        span matches Some((duration, position)) ==> {
            &&& update.timeline is Some
            &&& update.timeline->0.position == position
            &&& update.timeline->0.start == 0
            &&& update.timeline->0.min_seek == 0
            &&& update.timeline->0.end == duration
            &&& update.timeline->0.max_seek == duration
        },
        span is None ==> update.timeline is None,
        artwork_path matches Some(path) ==> {
            &&& update.artwork is Some
            &&& update.artwork->0.path == path
            &&& update.artwork->0.source == ArtworkSource::Url <==> "http://"@.is_prefix_of(path@)
                || "https://"@.is_prefix_of(path@)
        },
        artwork_path is None ==> update.artwork is None,
        !smtc_ready ==> update.stage == NowPlayingStage::Initialise,
        smtc_ready && playing ==> update.stage == NowPlayingStage::SetStatus(
            PlaybackStatus::Playing,
        ),
        smtc_ready && !playing ==> update.stage == NowPlayingStage::SetStatus(
            PlaybackStatus::Paused,
        ),
{
    let artwork = match artwork_path {
        Some(path) => Some(Artwork { path, source: artwork_source(path) }),
        None => None,
    };
    let timeline = match span {
        Some((duration, position)) => Some(
            Timeline { start: 0, end: duration, position, min_seek: 0, max_seek: duration },
        ),
        None => None,
    };
    let stage = if smtc_ready {
        NowPlayingStage::SetStatus(playback_status(playing))
    } else {
        NowPlayingStage::Initialise
    };
    NowPlaying { texts: TrackTexts { title, artist, album }, playing, artwork, timeline, stage }
}

/// The update after a run of step outcomes.
pub open spec fn update_run<'a>(update: NowPlaying<'a>, oks: Seq<bool>) -> NowPlaying<'a>
    decreases oks.len(),
{
    if oks.len() == 0 {
        update
    } else {
        update_run(update.next(oks[0]), oks.drop_first())
    }
}

/// Whether a stage is taken in the course of a run.
pub open spec fn takes(update: NowPlaying, oks: Seq<bool>, stage: NowPlayingStage) -> bool
    decreases oks.len(),
{
    update.stage == stage || (oks.len() > 0 && takes(
        update.next(oks[0]),
        oks.drop_first(),
        stage,
    ))
}

/// How many steps an update can still take.
spec fn steps_left(stage: NowPlayingStage) -> nat {
    match stage {
        NowPlayingStage::Initialise => 15,
        NowPlayingStage::SetStatus(_) => 14,
        NowPlayingStage::OpenDisplay => 13,
        NowPlayingStage::SetMusicType => 12,
        NowPlayingStage::OpenMusicProperties => 11,
        NowPlayingStage::SetTexts(_) => 10,
        NowPlayingStage::CreateArtworkUri(_) => 9,
        NowPlayingStage::OpenArtworkUri => 8,
        NowPlayingStage::ShowArtwork => 7,
        NowPlayingStage::LoadArtworkFile(_) => 6,
        NowPlayingStage::CommitDisplay => 5,
        NowPlayingStage::FindWindow => 4,
        NowPlayingStage::RefreshButtons => 3,
        NowPlayingStage::OpenTimeline => 2,
        NowPlayingStage::PushTimeline(_) => 1,
        NowPlayingStage::Done => 0,
    }
}

/// An update ends after at most fifteen steps, whatever succeeds or fails.
pub proof fn update_always_ends(update: NowPlaying, oks: Seq<bool>)
    requires
        oks.len() >= 15,
    ensures
        update_run(update, oks).stage == NowPlayingStage::Done,
{
    run_ends(update, oks);
}

proof fn run_ends(update: NowPlaying, oks: Seq<bool>)
    requires
        oks.len() >= steps_left(update.stage),
    ensures
        update_run(update, oks).stage == NowPlayingStage::Done,
    decreases oks.len(),
{
    if oks.len() > 0 {
        run_ends(update.next(oks[0]), oks.drop_first());
    }
}

/// Whatever cannot be shown, the player's window is looked for once the
/// transport controls are there.
pub proof fn window_is_always_looked_for(
    texts: TrackTexts<'_>,
    playing: bool,
    artwork: Option<Artwork<'_>>,
    timeline: Option<Timeline>,
    oks: Seq<bool>,
)
    requires
        oks.len() >= 10,
    ensures
        takes(
            update_start(true, texts, playing, artwork, timeline),
            oks,
            NowPlayingStage::FindWindow,
        ),
{
    run_takes_window(update_start(true, texts, playing, artwork, timeline), oks);
}

proof fn run_takes_window(update: NowPlaying, oks: Seq<bool>)
    requires
        4 <= steps_left(update.stage) <= 14,
        oks.len() >= steps_left(update.stage) - 4,
    ensures
        takes(update, oks, NowPlayingStage::FindWindow),
    decreases oks.len(),
{
    if update.stage != NowPlayingStage::FindWindow {
        run_takes_window(update.next(oks[0]), oks.drop_first());
    }
}

/// A display that was opened is always made visible, whatever part of it could
/// not be filled in.
pub proof fn opened_display_is_committed(update: NowPlaying, oks: Seq<bool>)
    requires
        update.stage == NowPlayingStage::SetMusicType,
        oks.len() >= 7,
    ensures
        takes(update, oks, NowPlayingStage::CommitDisplay),
{
    run_takes_commit(update, oks);
}

proof fn run_takes_commit(update: NowPlaying, oks: Seq<bool>)
    requires
        5 <= steps_left(update.stage) <= 12,
        oks.len() >= steps_left(update.stage) - 5,
    ensures
        takes(update, oks, NowPlayingStage::CommitDisplay),
    decreases oks.len(),
{
    if update.stage != NowPlayingStage::CommitDisplay {
        run_takes_commit(update.next(oks[0]), oks.drop_first());
    }
}

/// The steps of an update in which nothing fails.
pub open spec fn update_script<'a>(
    texts: TrackTexts<'a>,
    playing: bool,
    artwork: Option<Artwork<'a>>,
    timeline: Option<Timeline>,
) -> Seq<NowPlayingStage<'a>> {
    seq![
        NowPlayingStage::SetStatus(status_spec(playing)),
        NowPlayingStage::OpenDisplay,
        NowPlayingStage::SetMusicType,
        NowPlayingStage::OpenMusicProperties,
        NowPlayingStage::SetTexts(texts),
    ] + (match artwork {
        Some(Artwork { path, source: ArtworkSource::Url }) => seq![
            NowPlayingStage::CreateArtworkUri(path),
            NowPlayingStage::OpenArtworkUri,
            NowPlayingStage::ShowArtwork,
        ],
        Some(Artwork { path, source: ArtworkSource::File }) => seq![
            NowPlayingStage::LoadArtworkFile(path),
        ],
        None => seq![],
    }) + seq![
        NowPlayingStage::CommitDisplay,
        NowPlayingStage::FindWindow,
        NowPlayingStage::RefreshButtons,
    ] + (match timeline {
        Some(t) => seq![NowPlayingStage::OpenTimeline, NowPlayingStage::PushTimeline(t)],
        None => seq![],
    }) + seq![NowPlayingStage::Done]
}

proof fn run_extends(update: NowPlaying, oks: Seq<bool>)
    requires
        oks.len() > 0,
    ensures
        update_run(update, oks) == update_run(update, oks.drop_last()).next(oks.last()),
    decreases oks.len(),
{
    if oks.len() > 1 {
        run_extends(update.next(oks[0]), oks.drop_first());
        assert(oks.drop_first().drop_last() =~= oks.drop_last().drop_first());
    } else {
        assert(oks.drop_first().len() == 0);
        assert(oks.drop_last().len() == 0);
        reveal_with_fuel(update_run, 2);
    }
}

/// While every step succeeds, the script is followed in order: state, texts,
/// cover, display, toolbar, timeline.
pub proof fn success_follows_script(
    texts: TrackTexts<'_>,
    playing: bool,
    artwork: Option<Artwork<'_>>,
    timeline: Option<Timeline>,
    oks: Seq<bool>,
)
    requires
        oks.len() < update_script(texts, playing, artwork, timeline).len(),
        forall|i: int| 0 <= i < oks.len() ==> #[trigger] oks[i],
    ensures
        update_run(update_start(true, texts, playing, artwork, timeline), oks) == (NowPlaying {
            stage: update_script(texts, playing, artwork, timeline)[oks.len() as int],
            ..update_start(true, texts, playing, artwork, timeline)
        }),
    decreases oks.len(),
{
    let start = update_start(true, texts, playing, artwork, timeline);
    if oks.len() > 0 {
        let front = oks.drop_last();
        assert forall|i: int| 0 <= i < front.len() implies #[trigger] front[i] by {
            assert(oks[i]);
        }
        success_follows_script(texts, playing, artwork, timeline, front);
        run_extends(start, oks);
        assert(oks[oks.len() - 1]);
    }
}

/// Nothing at all happens when the transport controls cannot be attached.
pub proof fn missing_controls_end_the_update(
    texts: TrackTexts<'_>,
    playing: bool,
    artwork: Option<Artwork<'_>>,
    timeline: Option<Timeline>,
)
    ensures
        update_start(false, texts, playing, artwork, timeline).next(false).stage
            == NowPlayingStage::Done,
{
}

/// The texts and the timeline are only ever shown as they were given, and no
/// timeline for a track of unknown duration; a cover is only fetched from an
/// address when it is one, and only read from a file otherwise.
pub proof fn steps_fit_the_track(
    smtc_ready: bool,
    texts: TrackTexts<'_>,
    playing: bool,
    artwork: Option<Artwork<'_>>,
    timeline: Option<Timeline>,
    oks: Seq<bool>,
)
    ensures
        ({
            let now = update_run(update_start(smtc_ready, texts, playing, artwork, timeline), oks);
            &&& now.stage matches NowPlayingStage::PushTimeline(t) ==> timeline == Some(t)
            &&& now.stage matches NowPlayingStage::SetStatus(s) ==> s == status_spec(playing)
            &&& now.stage matches NowPlayingStage::SetTexts(t) ==> t == texts
            &&& now.stage matches NowPlayingStage::CreateArtworkUri(p) ==> artwork == Some(
                Artwork { path: p, source: ArtworkSource::Url },
            )
            &&& now.stage matches NowPlayingStage::LoadArtworkFile(p) ==> artwork == Some(
                Artwork { path: p, source: ArtworkSource::File },
            )
        }),
{
    run_keeps_fit(update_start(smtc_ready, texts, playing, artwork, timeline), oks);
}

spec fn fits(update: NowPlaying) -> bool {
    &&& update.stage matches NowPlayingStage::PushTimeline(t) ==> update.timeline == Some(t)
    &&& update.stage matches NowPlayingStage::SetStatus(s) ==> s == status_spec(update.playing)
    &&& update.stage matches NowPlayingStage::SetTexts(t) ==> t == update.texts
    &&& update.stage matches NowPlayingStage::CreateArtworkUri(p) ==> update.artwork == Some(
        Artwork { path: p, source: ArtworkSource::Url },
    )
    &&& update.stage matches NowPlayingStage::LoadArtworkFile(p) ==> update.artwork == Some(
        Artwork { path: p, source: ArtworkSource::File },
    )
}

proof fn run_keeps_fit(update: NowPlaying, oks: Seq<bool>)
    requires
        fits(update),
    ensures
        fits(update_run(update, oks)),
        update_run(update, oks).texts == update.texts,
        update_run(update, oks).playing == update.playing,
        update_run(update, oks).artwork == update.artwork,
        update_run(update, oks).timeline == update.timeline,
    decreases oks.len(),
{
    if oks.len() > 0 {
        run_keeps_fit(update.next(oks[0]), oks.drop_first());
    }
}

/// The stage of the background work after a run of step outcomes.
pub open spec fn cover_run(stage: CoverStage, oks: Seq<bool>) -> CoverStage
    decreases oks.len(),
{
    if oks.len() == 0 {
        stage
    } else {
        cover_run(next_cover_stage(stage, oks[0]), oks.drop_first())
    }
}

/// A cover that is read in the background is shown exactly when its bytes, the
/// stream and the display could be had; it is then made visible in the next
/// step. Otherwise nothing is changed. The work ends after five steps.
pub proof fn cover_is_shown_when_complete(oks: Seq<bool>)
    requires
        oks.len() >= 5,
    ensures
        ({
            let complete = oks[0] && oks[1] && oks[2];
            &&& cover_run(CoverStage::Fetch, oks.take(3)) == (if complete {
                CoverStage::ShowArtwork
            } else {
                CoverStage::Done
            })
            &&& cover_run(CoverStage::Fetch, oks.take(4)) == (if complete {
                CoverStage::CommitDisplay
            } else {
                CoverStage::Done
            })
            &&& forall|n: int|
                0 <= n < 3 ==> {
                    let stage = #[trigger] cover_run(CoverStage::Fetch, oks.take(n));
                    stage != CoverStage::ShowArtwork && stage != CoverStage::CommitDisplay
                }
            &&& cover_run(CoverStage::Fetch, oks) == CoverStage::Done
        }),
{
    reveal_with_fuel(cover_run, 5);
    let t3 = oks.take(3);
    let t4 = oks.take(4);
    assert(t3.drop_first().drop_first().drop_first().len() == 0);
    assert(t4.drop_first().drop_first().drop_first().drop_first().len() == 0);
    assert forall|n: int| 0 <= n < 3 implies {
        let stage = #[trigger] cover_run(CoverStage::Fetch, oks.take(n));
        stage != CoverStage::ShowArtwork && stage != CoverStage::CommitDisplay
    } by {
        let t = oks.take(n);
        assert(n == 0 || n == 1 || n == 2);
    }
    cover_ends(CoverStage::Fetch, oks);
}

spec fn cover_steps_left(stage: CoverStage) -> nat {
    match stage {
        CoverStage::Fetch => 5,
        CoverStage::OpenStream => 4,
        CoverStage::OpenDisplay => 3,
        CoverStage::ShowArtwork => 2,
        CoverStage::CommitDisplay => 1,
        CoverStage::Done => 0,
    }
}

proof fn cover_ends(stage: CoverStage, oks: Seq<bool>)
    requires
        oks.len() >= cover_steps_left(stage),
    ensures
        cover_run(stage, oks) == CoverStage::Done,
    decreases oks.len(),
{
    if oks.len() > 0 {
        cover_ends(next_cover_stage(stage, oks[0]), oks.drop_first());
    }
}

/// A path is a web address exactly when it is `http://` or `https://` and
/// something behind it, whatever that is; any other path is a file.
pub proof fn web_addresses_by_prefix(path: Seq<char>)
    ensures
        source_spec(path) == ArtworkSource::Url <==> "http://"@.is_prefix_of(path)
            || "https://"@.is_prefix_of(path),
        source_spec(path) == ArtworkSource::Url <==> (exists|rest: Seq<char>|
            path == #[trigger] ("http://"@ + rest)) || (exists|rest: Seq<char>|
            path == #[trigger] ("https://"@ + rest)),
{
    text::prefix_is_followed_by_rest(path, "http://"@);
    text::prefix_is_followed_by_rest(path, "https://"@);
}

/// The timeline of a track of known duration starts at zero, ends with the
/// track, can be sought as a whole, and shows the very position that was given,
/// whatever duration and position are; without them there is no timeline.
pub proof fn timeline_shows_the_span(
    smtc_ready: bool,
    texts: TrackTexts<'_>,
    playing: bool,
    artwork: Option<Artwork<'_>>,
    duration: i64,
    position: i64,
)
    ensures
        ({
            let update = update_start(
                smtc_ready,
                texts,
                playing,
                artwork,
                span_timeline(Some((duration, position))),
            );
            &&& update.timeline is Some
            &&& update.timeline->0.position == position
            &&& update.timeline->0.start == 0 && update.timeline->0.min_seek == 0
            &&& update.timeline->0.end == duration && update.timeline->0.max_seek == duration
        }),
        update_start(smtc_ready, texts, playing, artwork, span_timeline(None)).timeline is None,
{
}

/// The shown position moves exactly as the track does: between two updates of
/// one track it changes by as much as the position given.
pub proof fn shown_position_moves_with_the_track(duration: i64, before: i64, after: i64)
    ensures
        span_timeline(Some((duration, after)))->0.position - span_timeline(
            Some((duration, before)),
        )->0.position == after - before,
        span_timeline(Some((duration, after)))->0.end == span_timeline(
            Some((duration, before)),
        )->0.end,
{
}

/// Whatever succeeds or fails, only what was given is shown: the state, the
/// texts, the cover at its place, and the position in the track.
pub proof fn only_the_given_track_is_shown<'a>(
    smtc_ready: bool,
    texts: TrackTexts<'a>,
    playing: bool,
    artwork_path: Option<&'a str>,
    span: Option<(i64, i64)>,
    oks: Seq<bool>,
)
    ensures
        ({
            let now = update_run(
                update_start(
                    smtc_ready,
                    texts,
                    playing,
                    path_artwork(artwork_path),
                    span_timeline(span),
                ),
                oks,
            );
            &&& now.stage matches NowPlayingStage::SetStatus(s) ==> (s == PlaybackStatus::Playing
                <==> playing)
            &&& now.stage matches NowPlayingStage::SetTexts(t) ==> t.title == texts.title
                && t.artist == texts.artist && t.album == texts.album
            &&& now.stage matches NowPlayingStage::CreateArtworkUri(p) ==> artwork_path == Some(p)
                && ("http://"@.is_prefix_of(p@) || "https://"@.is_prefix_of(p@))
            &&& now.stage matches NowPlayingStage::LoadArtworkFile(p) ==> artwork_path == Some(p)
                && !("http://"@.is_prefix_of(p@) || "https://"@.is_prefix_of(p@))
            &&& now.stage matches NowPlayingStage::PushTimeline(t) ==> span == Some(
                (t.end, t.position),
            ) && t.start == 0 && t.min_seek == 0 && t.max_seek == t.end
        }),
{
    steps_fit_the_track(
        smtc_ready,
        texts,
        playing,
        path_artwork(artwork_path),
        span_timeline(span),
        oks,
    );
    if let Some(path) = artwork_path {
        web_addresses_by_prefix(path@);
    }
}

proof fn run_passes_through(update: NowPlaying, oks: Seq<bool>, n: int)
    requires
        0 <= n <= oks.len(),
    ensures
        takes(update, oks, update_run(update, oks.take(n)).stage),
    decreases n,
{
    if n > 0 {
        let rest = oks.drop_first();
        run_passes_through(update.next(oks[0]), rest, n - 1);
        assert(oks.take(n).drop_first() =~= rest.take(n - 1));
    }
}

/// When every step succeeds, everything that was given is shown: the state, the
/// texts, the cover, and the position in the track.
pub proof fn all_of_the_track_is_shown<'a>(
    texts: TrackTexts<'a>,
    playing: bool,
    artwork_path: Option<&'a str>,
    span: Option<(i64, i64)>,
    oks: Seq<bool>,
)
    requires
        oks.len() >= 12,
        forall|i: int| 0 <= i < oks.len() ==> #[trigger] oks[i],
    ensures
        ({
            let start = update_start(
                true,
                texts,
                playing,
                path_artwork(artwork_path),
                span_timeline(span),
            );
            &&& playing ==> takes(start, oks, NowPlayingStage::SetStatus(PlaybackStatus::Playing))
            &&& !playing ==> takes(start, oks, NowPlayingStage::SetStatus(PlaybackStatus::Paused))
            &&& takes(start, oks, NowPlayingStage::SetTexts(texts))
            &&& artwork_path matches Some(path) ==> (if "http://"@.is_prefix_of(path@)
                || "https://"@.is_prefix_of(path@) {
                takes(start, oks, NowPlayingStage::CreateArtworkUri(path)) && takes(
                    start,
                    oks,
                    NowPlayingStage::ShowArtwork,
                )
            } else {
                takes(start, oks, NowPlayingStage::LoadArtworkFile(path))
            })
            &&& takes(start, oks, NowPlayingStage::CommitDisplay)
            &&& takes(start, oks, NowPlayingStage::RefreshButtons)
            &&& span matches Some((duration, position)) ==> takes(
                start,
                oks,
                NowPlayingStage::PushTimeline(
                    Timeline {
                        start: 0,
                        end: duration,
                        position,
                        min_seek: 0,
                        max_seek: duration,
                    },
                ),
            )
        }),
{
    let artwork = path_artwork(artwork_path);
    let timeline = span_timeline(span);
    let script = update_script(texts, playing, artwork, timeline);
    let start = update_start(true, texts, playing, artwork, timeline);
    if let Some(path) = artwork_path {
        web_addresses_by_prefix(path@);
    }
    assert(script.len() <= 14);
    assert forall|n: int| 0 <= n < script.len() - 1 implies takes(
        start,
        oks,
        #[trigger] script[n],
    ) by {
        let part = oks.take(n);
        assert forall|i: int| 0 <= i < part.len() implies #[trigger] part[i] by {
            assert(oks[i]);
        }
        success_follows_script(texts, playing, artwork, timeline, part);
        run_passes_through(start, oks, n);
    }
    let cover: int = match artwork {
        Some(Artwork { source: ArtworkSource::Url, .. }) => 3,
        Some(_) => 1,
        None => 0,
    };
    assert(script[0] == start.stage);
    assert(script[4] == NowPlayingStage::SetTexts(texts));
    if let Some(a) = artwork {
        if a.source == ArtworkSource::Url {
            assert(script[5] == NowPlayingStage::CreateArtworkUri(a.path));
            assert(script[7] == NowPlayingStage::ShowArtwork);
        } else {
            assert(script[5] == NowPlayingStage::LoadArtworkFile(a.path));
        }
    }
    assert(script[5 + cover] == NowPlayingStage::CommitDisplay);
    assert(script[7 + cover] == NowPlayingStage::RefreshButtons);
    if let Some(t) = timeline {
        assert(script[9 + cover] == NowPlayingStage::PushTimeline(t));
    }
}

/// How a step ended is looked at only where something was to be had: missing
/// controls or a missing timeline end the update, a missing display leaves the
/// window to be looked for, and a missing cover leaves the rest of the display
/// to be made visible.
pub proof fn failures_leave_parts_out(update: NowPlaying)
    ensures
        update.stage == NowPlayingStage::Initialise || update.stage == NowPlayingStage::OpenTimeline
            ==> update.next(false).stage == NowPlayingStage::Done,
        update.stage == NowPlayingStage::OpenDisplay ==> update.next(false).stage
            == NowPlayingStage::FindWindow,
        update.stage is CreateArtworkUri || update.stage == NowPlayingStage::OpenArtworkUri
            ==> update.next(false).stage == NowPlayingStage::CommitDisplay,
        update.stage == NowPlayingStage::OpenMusicProperties ==> update.next(false)
            == update.next(true).next(false),
        update.stage == NowPlayingStage::FindWindow ==> update.next(false) == update.next(
            true,
        ).next(false),
        update.stage is SetStatus || update.stage == NowPlayingStage::SetMusicType
            || update.stage is SetTexts || update.stage == NowPlayingStage::ShowArtwork
            || update.stage is LoadArtworkFile || update.stage == NowPlayingStage::CommitDisplay
            || update.stage == NowPlayingStage::RefreshButtons || update.stage is PushTimeline
            || update.stage == NowPlayingStage::Done ==> update.next(false) == update.next(true),
{
}

} // verus!
