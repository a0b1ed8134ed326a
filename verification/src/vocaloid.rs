//! The Vocaloid radio station, whose current track comes from its profile feed.
use crate::channel::Outbox;
use crate::radio::{
    self, deliver, Announcer, FeedRequest, Offer, PollAction, RadioMetadata, RadioMetadataView,
};
use vstd::prelude::*;

verus! {

/// The main block of the feed. Every part of it may be missing.
#[derive(Debug, Clone, PartialEq, Eq)]
pub struct VocaloidPrimary {
    pub title: Option<String>,
    pub subtitle: Option<String>,
    pub image: Option<String>,
}

/// The model of `VocaloidPrimary`.
pub struct VocaloidPrimaryView {
    pub title: Option<Seq<char>>,
    pub subtitle: Option<Seq<char>>,
    pub image: Option<Seq<char>>,
}

impl View for VocaloidPrimary {
    type V = VocaloidPrimaryView;

    open spec fn view(&self) -> VocaloidPrimaryView {
        VocaloidPrimaryView {
            title: radio::option_view(self.title),
            subtitle: radio::option_view(self.subtitle),
            image: radio::option_view(self.image),
        }
    }
}

/// The feed.
#[derive(Debug, Clone, PartialEq, Eq)]
pub struct VocaloidResponse {
    pub primary: Option<VocaloidPrimary>,
}

/// The main block that a fetch brought, if any: there is none when the fetch
/// failed or the feed came without one.
pub open spec fn primary_view(response: Option<VocaloidResponse>) -> Option<VocaloidPrimaryView> {
    match response {
        Some(feed) => match feed.primary {
            Some(primary) => Some(primary@),
            None => None,
        },
        None => None,
    }
}

/// Seconds between two fetches of the feed.
pub const VOCALOID_INTERVAL: u64 = 7;

/// The text of an optional part; missing parts read as empty.
pub open spec fn text_or_empty(text: Option<Seq<char>>) -> Seq<char> {
    match text {
        Some(t) => t,
        None => Seq::empty(),
    }
}

/// The text by which a track is recognised: artist, a spaced dash, title.
pub open spec fn track_key(artist: Seq<char>, title: Seq<char>) -> Seq<char> {
    artist + " - "@ + title
}

/// What is announced of a main block: the subtitle is the artist.
pub open spec fn primary_metadata(primary: VocaloidPrimaryView) -> RadioMetadataView {
    RadioMetadataView {
        title: text_or_empty(primary.title),
        artist: text_or_empty(primary.subtitle),
        cover_url: primary.image,
    }
}

/// The track that a response offers.
pub open spec fn vocaloid_offer(primary: Option<VocaloidPrimaryView>) -> Option<
    Offer,
> {
    match primary {
        None => None,
        Some(p) => Some(
            Offer {
                key: track_key(text_or_empty(p.subtitle), text_or_empty(p.title)),
                meta: primary_metadata(p),
            },
        ),
    }
}

fn unwrap_text(text: Option<String>) -> (r: String)
    ensures
        r@ == text_or_empty(radio::option_view(text)),
        text matches Some(t) ==> r@ == t@,
        text is None ==> r@ == Seq::<char>::empty(),
{
    match text {
        Some(t) => t,
        None => String::new(),
    }
}

/// The text by which a track is recognised.
pub fn comparison_key(artist: &str, title: &str) -> (key: String)
    ensures
        key@ == track_key(artist@, title@),
        key@ == artist@ + " - "@ + title@,
{
    artist.to_owned().concat(" - ").concat(title)
}

/// Provides the metadata of the Vocaloid station.
#[derive(Debug, Clone, Copy, PartialEq, Eq)]
pub struct VocaloidProvider;

impl VocaloidProvider {
    /// Starts to follow the station, with nothing announced yet. There is only
    /// one stream, so its name is not looked at.
    pub fn start(&self, _stream_id: &str) -> (poller: VocaloidPoller)
        ensures
            poller.last() == Seq::<char>::empty(),
    {
        VocaloidPoller { announcer: Announcer::new() }
    }
}

/// Follows the Vocaloid station.
#[derive(Debug)]
pub struct VocaloidPoller {
    announcer: Announcer,
}

impl VocaloidPoller {
    /// The key announced last; empty while there is none.
    pub closed spec fn last(&self) -> Seq<char> {
        self.announcer@
    }

    /// The request to fetch the feed with.
    pub fn request(&self) -> (request: FeedRequest)
        ensures
            request.url@
                == "https://feed.platform.prod.us-west-2.tunein.com/profiles/s221579/nowPlaying"@,
            request.user_agent@ == "Kopuz/0.5.5"@,
            request.headers@.len() == 0,
    {
        FeedRequest {
            url: "https://feed.platform.prod.us-west-2.tunein.com/profiles/s221579/nowPlaying",
            user_agent: "Kopuz/0.5.5",
            headers: Vec::new(),
        }
    }

    /// Takes in the outcome of a fetch (`None` when the request failed or its
    /// body was no feed) and returns the metadata to announce, if any.
    pub fn observe(&mut self, response: Option<VocaloidResponse>) -> (news: Option<RadioMetadata>)
        ensures
            response matches Some(feed) ==> (feed.primary matches Some(primary) ==> {
                let title = match primary.title {
                    Some(t) => t@,
                    None => Seq::<char>::empty(),
                };
                let artist = match primary.subtitle {
                    Some(a) => a@,
                    None => Seq::<char>::empty(),
                };
                &&& final(self).last() == artist + " - "@ + title
                &&& artist + " - "@ + title == old(self).last() ==> news is None
                &&& artist + " - "@ + title != old(self).last() ==> {
                    &&& news is Some
                    &&& news->0.title@ == title
                    &&& news->0.artist@ == artist
                    &&& news->0.cover_url == primary.image
                }
            }),
            response is None ==> news is None && final(self).last() == old(self).last(),
            response matches Some(feed) ==> (feed.primary is None ==> news is None
                && final(self).last() == old(self).last()),
            final(self).last() == radio::next_key(
                old(self).last(),
                vocaloid_offer(primary_view(response)),
            ),
            (match news {
                Some(meta) => Some(meta@),
                None => None,
            }) == radio::announcement(
                old(self).last(),
                vocaloid_offer(primary_view(response)),
            ),
    {
        match response {
            Some(VocaloidResponse { primary: Some(primary) }) => {
                let title = unwrap_text(primary.title);
                let artist = unwrap_text(primary.subtitle);
                let key = comparison_key(artist.as_str(), title.as_str());
                let meta = RadioMetadata { title, artist, cover_url: primary.image };
                self.announcer.offer(key, meta)
            },
            _ => None,
        }
    }

    /// Takes in the outcome of a fetch, sends what is to be announced and
    /// decides how polling goes on: it stops exactly when there was something
    /// to announce and it came back.
    pub fn poll(
        &mut self,
        response: Option<VocaloidResponse>,
        outbox: &mut Outbox<RadioMetadata>,
    ) -> (action: PollAction)
        ensures
            response matches Some(feed) ==> (feed.primary matches Some(primary) ==> {
                let title = match primary.title {
                    Some(t) => t@,
                    None => Seq::<char>::empty(),
                };
                let artist = match primary.subtitle {
                    Some(a) => a@,
                    None => Seq::<char>::empty(),
                };
                &&& final(self).last() == artist + " - "@ + title
                &&& artist + " - "@ + title == old(self).last() ==> {
                    &&& final(outbox).sent() == old(outbox).sent()
                    &&& final(outbox).refused() == old(outbox).refused()
                    &&& action == PollAction::Sleep(7)
                }
                &&& artist + " - "@ + title != old(self).last() ==> {
                    &&& final(outbox).sent().len() == old(outbox).sent().len() + 1
                    &&& final(outbox).sent().drop_last() == old(outbox).sent()
                    &&& final(outbox).sent().last().title@ == title
                    &&& final(outbox).sent().last().artist@ == artist
                    &&& final(outbox).sent().last().cover_url == primary.image
                    &&& action == (if final(outbox).refused() {
                        PollAction::Stop(final(outbox).sent().last())
                    } else {
                        PollAction::Sleep(7)
                    })
                }
            }),
            response is None ==> {
                &&& final(outbox).sent() == old(outbox).sent()
                &&& final(outbox).refused() == old(outbox).refused()
                &&& final(self).last() == old(self).last()
                &&& action == PollAction::Sleep(7)
            },
            response matches Some(feed) ==> (feed.primary is None ==> {
                &&& final(outbox).sent() == old(outbox).sent()
                &&& final(outbox).refused() == old(outbox).refused()
                &&& final(self).last() == old(self).last()
                &&& action == PollAction::Sleep(7)
            }),
            final(outbox).channel() == old(outbox).channel(),
            final(self).last() == radio::next_key(
                old(self).last(),
                vocaloid_offer(primary_view(response)),
            ),
            ({
                let news = radio::announcement(
                    old(self).last(),
                    vocaloid_offer(primary_view(response)),
                );
                &&& radio::sent_news(old(outbox).sent(), final(outbox).sent(), news)
                &&& news is None ==> final(outbox).refused() == old(outbox).refused()
                &&& action == (if news is Some && final(outbox).refused() {
                    PollAction::Stop(final(outbox).sent().last())
                } else {
                    PollAction::Sleep(VOCALOID_INTERVAL)
                })
            }),
    {
        let news = self.observe(response);
        deliver(outbox, news, VOCALOID_INTERVAL)
    }
}

/// The tracks offered over a run of main blocks.
pub open spec fn vocaloid_offers(primaries: Seq<Option<VocaloidPrimaryView>>) -> Seq<
    Option<Offer>,
> {
    primaries.map_values(|p: Option<VocaloidPrimaryView>| vocaloid_offer(p))
}

/// The metadata announced over a run of main blocks.
pub open spec fn vocaloid_announced(primaries: Seq<Option<VocaloidPrimaryView>>) -> Seq<
    RadioMetadataView,
> {
    radio::run_news(vocaloid_offers(primaries)).map_values(|o: Offer| o.meta)
}

/// One more main block for a poller: what is announced grows by the
/// announcement that the poller makes of it, and the key that it remembers
/// moves on.
pub proof fn vocaloid_response_extends_run(
    primaries: Seq<Option<VocaloidPrimaryView>>,
    primary: Option<VocaloidPrimaryView>,
)
    ensures
        ({
            let last = radio::run_key(vocaloid_offers(primaries));
            let offer = vocaloid_offer(primary);
            &&& radio::run_key(vocaloid_offers(primaries.push(primary))) == radio::next_key(
                last,
                offer,
            )
            &&& vocaloid_announced(primaries.push(primary)) == (match radio::announcement(
                last,
                offer,
            ) {
                Some(meta) => vocaloid_announced(primaries).push(meta),
                None => vocaloid_announced(primaries),
            })
        }),
{
    let offers = vocaloid_offers(primaries);
    let offer = vocaloid_offer(primary);
    assert(vocaloid_offers(primaries.push(primary)) =~= offers.push(offer));
    radio::run_grows(offers, offer);
    assert(vocaloid_announced(primaries.push(primary)) =~= (match radio::announcement(
        radio::run_key(offers),
        offer,
    ) {
        Some(meta) => vocaloid_announced(primaries).push(meta),
        None => vocaloid_announced(primaries),
    }));
}

/// A poller that takes in a run of main blocks one by one announces exactly
/// what is announced over the run, in order. `keys` holds the key that it
/// remembers before the first block and after each one, and `news` what it
/// makes of each.
pub proof fn vocaloid_poller_follows_run(
    primaries: Seq<Option<VocaloidPrimaryView>>,
    keys: Seq<Seq<char>>,
    news: Seq<Option<RadioMetadataView>>,
)
    requires
        radio::follows(vocaloid_offers(primaries), keys, news),
    ensures
        keys.last() == radio::run_key(vocaloid_offers(primaries)),
        radio::heard(news) == vocaloid_announced(primaries),
{
    radio::poller_follows_run(vocaloid_offers(primaries), keys, news);
}

proof fn news_keys_are_track_keys(primaries: Seq<Option<VocaloidPrimaryView>>)
    ensures
        forall|i: int|
            0 <= i < radio::run_news(vocaloid_offers(primaries)).len() ==> {
                let o = #[trigger] radio::run_news(vocaloid_offers(primaries))[i];
                o.key == track_key(o.meta.artist, o.meta.title)
            },
    decreases primaries.len(),
{
    if primaries.len() > 0 {
        news_keys_are_track_keys(primaries.drop_last());
        assert(vocaloid_offers(primaries).drop_last() =~= vocaloid_offers(primaries.drop_last()));
    }
}

/// Whatever the feed answers over time, two announcements in a row never have
/// the same key; so they never have both the same artist and the same title.
pub proof fn vocaloid_tracks_change(primaries: Seq<Option<VocaloidPrimaryView>>)
    ensures
        ({
            let heard = vocaloid_announced(primaries);
            forall|i: int|
                0 <= i < heard.len() - 1 ==> track_key(
                    (#[trigger] heard[i]).artist,
                    heard[i].title,
                ) != track_key(heard[i + 1].artist, heard[i + 1].title)
        }),
{
    radio::never_announces_twice_in_a_row(vocaloid_offers(primaries));
    news_keys_are_track_keys(primaries);
    let news = radio::run_news(vocaloid_offers(primaries));
    let heard = vocaloid_announced(primaries);
    assert forall|i: int| 0 <= i < heard.len() - 1 implies track_key(
        (#[trigger] heard[i]).artist,
        heard[i].title,
    ) != track_key(heard[i + 1].artist, heard[i + 1].title) by {
        assert(news[i].key != news[i + 1].key);
        assert(news[i + 1].key == track_key(news[i + 1].meta.artist, news[i + 1].meta.title));
    }
}

/// A failed fetch, and a feed without a main block, announce nothing and are
/// forgotten.
pub proof fn fetch_without_primary_is_ignored(last: Seq<char>)
    ensures
        radio::announcement(last, vocaloid_offer(None)) is None,
        radio::next_key(last, vocaloid_offer(None)) == last,
{
}

/// The first main block that arrives is always announced, even when it names
/// neither artist nor title.
pub proof fn first_primary_is_announced(primary: VocaloidPrimaryView)
    ensures
        radio::announcement(Seq::empty(), vocaloid_offer(Some(primary))) == Some(
            primary_metadata(primary),
        ),
{
    reveal_strlit(" - ");
    assert(track_key(text_or_empty(primary.subtitle), text_or_empty(primary.title)).len() >= 3);
}

/// After a track was announced, another title by the same artist, or the same
/// title by another artist, is announced too.
pub proof fn changed_track_is_announced(
    before: VocaloidPrimaryView,
    after: VocaloidPrimaryView,
)
    requires
        text_or_empty(before.subtitle) == text_or_empty(after.subtitle) <==> text_or_empty(
            before.title,
        ) != text_or_empty(after.title),
    ensures
        radio::announcement(
            vocaloid_offer(Some(before))->0.key,
            vocaloid_offer(Some(after)),
        ) == Some(primary_metadata(after)),
{
    let a0 = text_or_empty(before.subtitle);
    let t0 = text_or_empty(before.title);
    let a1 = text_or_empty(after.subtitle);
    let t1 = text_or_empty(after.title);
    let k0 = track_key(a0, t0);
    let k1 = track_key(a1, t1);
    if k0 == k1 {
        if a0 == a1 {
            let n = (a0 + " - "@).len() as int;
            assert(k0.skip(n) =~= t0);
            assert(k1.skip(n) =~= t1);
        } else {
            let n = (" - "@ + t0).len();
            assert(k0.take(k0.len() - n) =~= a0);
            assert(k1.take(k1.len() - n) =~= a1);
        }
        assert(false);
    }
}

/// A track is offered with the texts and the cover that the feed has, whatever
/// they are: its title is the feed's title, its artist the feed's subtitle, and
/// a missing text is empty. It is recognised by artist, a spaced dash and title.
pub proof fn offered_texts_are_the_feeds(primary: VocaloidPrimaryView)
    ensures
        ({
            let offer = vocaloid_offer(Some(primary));
            &&& offer is Some
            &&& primary.title matches Some(t) ==> offer->0.meta.title == t
            &&& primary.title is None ==> offer->0.meta.title.len() == 0
            &&& primary.subtitle matches Some(a) ==> offer->0.meta.artist == a
            &&& primary.subtitle is None ==> offer->0.meta.artist.len() == 0
            &&& offer->0.meta.cover_url == primary.image
            &&& offer->0.key == offer->0.meta.artist + " - "@ + offer->0.meta.title
        }),
{
}

/// Two feeds that name the same artist are recognised as the same track exactly
/// when they name the same title, whatever the texts are.
pub proof fn titles_tell_tracks_apart(
    artist: Seq<char>,
    first: Seq<char>,
    second: Seq<char>,
    cover: Option<Seq<char>>,
)
    ensures
        ({
            let one = vocaloid_offer(
                Some(
                    VocaloidPrimaryView {
                        title: Some(first),
                        subtitle: Some(artist),
                        image: cover,
                    },
                ),
            );
            let two = vocaloid_offer(
                Some(
                    VocaloidPrimaryView {
                        title: Some(second),
                        subtitle: Some(artist),
                        image: cover,
                    },
                ),
            );
            one->0.key == two->0.key <==> first == second
        }),
{
    let n = (artist + " - "@).len() as int;
    assert((artist + " - "@ + first).skip(n) =~= first);
    assert((artist + " - "@ + second).skip(n) =~= second);
}

/// The model of a main block shows every part of it as it is.
pub proof fn primary_is_shown_whole(primary: VocaloidPrimary)
    ensures
        primary.title matches Some(t) ==> primary@.title == Some(t@),
        primary.title is None ==> primary@.title is None,
        primary.subtitle matches Some(a) ==> primary@.subtitle == Some(a@),
        primary.subtitle is None ==> primary@.subtitle is None,
        primary.image matches Some(u) ==> primary@.image == Some(u@),
        primary.image is None ==> primary@.image is None,
{
}

} // verus!
