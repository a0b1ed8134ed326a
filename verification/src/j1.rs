//! The J1 radio stations, whose current tracks come in one shared feed.
use crate::channel::Outbox;
use crate::radio::{
    self, deliver, Announcer, FeedRequest, Offer, PollAction, RadioMetadata, RadioMetadataView,
};
use vstd::prelude::*;

verus! {

/// One station's entry in the feed.
#[derive(Debug, Clone, PartialEq, Eq)]
pub struct J1Station {
    pub name: String,
    pub title: String,
    pub artist: String,
    pub image_url: String,
}

/// The model of `J1Station`.
pub struct J1StationView {
    pub name: Seq<char>,
    pub title: Seq<char>,
    pub artist: Seq<char>,
    pub image_url: Seq<char>,
}

impl View for J1Station {
    type V = J1StationView;

    open spec fn view(&self) -> J1StationView {
        J1StationView {
            name: self.name@,
            title: self.title@,
            artist: self.artist@,
            image_url: self.image_url@,
        }
    }
}

/// The feed: what each station is playing.
#[derive(Debug, Clone, PartialEq, Eq)]
pub struct J1Response {
    pub station: Vec<J1Station>,
}

impl View for J1Response {
    type V = Seq<J1StationView>;

    open spec fn view(&self) -> Seq<J1StationView> {
        self.station@.map_values(|s: J1Station| s@)
    }
}

/// Seconds between two fetches of the feed.
pub const J1_INTERVAL: u64 = 2;

/// The name that the feed uses for a stream: `J1HITS` is the hits station, and
/// every other stream is the gold station.
pub open spec fn target_name_spec(stream_id: Seq<char>) -> Seq<char> {
    if stream_id == "J1HITS"@ {
        "J1 HITS"@
    } else {
        "J1 GOLD"@
    }
}

/// The first entry with the given station name.
pub open spec fn first_named(stations: Seq<J1StationView>, name: Seq<char>) -> Option<J1StationView>
    decreases stations.len(),
{
    if stations.len() == 0 {
        None
    } else if stations[0].name == name {
        Some(stations[0])
    } else {
        first_named(stations.drop_first(), name)
    }
}

/// What is announced of an entry. Every J1 entry has a cover.
pub open spec fn station_metadata(station: J1StationView) -> RadioMetadataView {
    RadioMetadataView {
        title: station.title,
        artist: station.artist,
        cover_url: Some(station.image_url),
    }
}

/// The track that a response offers to the listener of a stream; none when the
/// fetch failed or the stream's station is missing. A J1 track is recognised
/// by its title alone.
pub open spec fn j1_offer(
    stream_id: Seq<char>,
    response: Option<Seq<J1StationView>>,
) -> Option<Offer> {
    match response {
        None => None,
        Some(stations) => match first_named(stations, target_name_spec(stream_id)) {
            None => None,
            Some(station) => Some(
                Offer { key: station.title, meta: station_metadata(station) },
            ),
        },
    }
}

/// The model of an optional response.
pub open spec fn response_view(response: Option<J1Response>) -> Option<Seq<J1StationView>> {
    match response {
        Some(r) => Some(r@),
        None => None,
    }
}

/// The name that the feed uses for a stream.
pub fn target_name(stream_id: &str) -> (name: &'static str)
    ensures
        name@ == target_name_spec(stream_id@),
        stream_id@ == "J1HITS"@ ==> name@ == "J1 HITS"@,
        stream_id@ != "J1HITS"@ ==> name@ == "J1 GOLD"@,
{
    if stream_id.to_owned() == "J1HITS".to_owned() {
        "J1 HITS"
    } else {
        "J1 GOLD"
    }
}

/// The position of the first entry with the given station name.
pub fn find_station(stations: &Vec<J1Station>, name: &str) -> (found: Option<usize>)
    ensures
        ({
            let views = stations@.map_values(|s: J1Station| s@);
            match found {
                Some(i) => i < stations.len() && first_named(views, name@) == Some(
                    stations[i as int]@,
                ) && stations[i as int].name@ == name@ && forall|j: int|
                    0 <= j < i ==> (#[trigger] stations[j]).name@ != name@,
                None => first_named(views, name@) is None && forall|j: int|
                    0 <= j < stations.len() ==> (#[trigger] stations[j]).name@ != name@,
            }
        }),
{
    let ghost views = stations@.map_values(|s: J1Station| s@);
    let wanted: String = name.to_owned();
    let mut i: usize = 0;
    assert(views.skip(0) =~= views);
    while i < stations.len()
        invariant
            i <= stations.len(),
            wanted@ == name@,
            views == stations@.map_values(|s: J1Station| s@),
            first_named(views, name@) == first_named(views.skip(i as int), name@),
            forall|j: int| 0 <= j < i ==> (#[trigger] stations[j]).name@ != name@,
        decreases stations.len() - i,
    {
        assert(views.skip(i as int)[0] == stations[i as int]@);
        if stations[i].name == wanted {
            return Some(i);
        }
        assert(views.skip(i as int).drop_first() =~= views.skip(i + 1));
        i += 1;
    }
    None
}

/// Provides the metadata of the J1 streams.
#[derive(Debug, Clone, Copy, PartialEq, Eq)]
pub struct J1Provider;

impl J1Provider {
    /// Starts to follow a stream, with nothing announced yet.
    pub fn start(&self, stream_id: &str) -> (poller: J1Poller)
        ensures
            poller.stream() == stream_id@,
            poller.last() == Seq::<char>::empty(),
    {
        J1Poller { stream_id: stream_id.to_owned(), announcer: Announcer::new() }
    }
}

/// Follows one J1 stream.
#[derive(Debug)]
pub struct J1Poller {
    stream_id: String,
    announcer: Announcer,
}

impl J1Poller {
    /// The stream that is followed.
    pub closed spec fn stream(&self) -> Seq<char> {
        self.stream_id@
    }

    /// The title announced last; empty while there is none.
    pub closed spec fn last(&self) -> Seq<char> {
        self.announcer@
    }

    /// The request to fetch the feed with.
    pub fn request(&self) -> (request: FeedRequest)
        ensures
            request.url@ == "https://json.j1fm.tokyo/whatweplay.json"@,
            request.user_agent@ == "Kopuz/0.5.5"@,
            radio::header_views(request.headers@) == seq![
                ("Accept"@, "*/*"@),
                ("Accept-Language"@, "en-US,en;q=0.9"@),
                ("Origin"@, "https://www.j1fm.tokyo"@),
                ("Referer"@, "https://www.j1fm.tokyo/"@),
            ],
            request.headers@.len() == 4,
            request.headers@[0].0@ == "Accept"@ && request.headers@[0].1@ == "*/*"@,
            request.headers@[1].0@ == "Accept-Language"@ && request.headers@[1].1@
                == "en-US,en;q=0.9"@,
            request.headers@[2].0@ == "Origin"@ && request.headers@[2].1@
                == "https://www.j1fm.tokyo"@,
            request.headers@[3].0@ == "Referer"@ && request.headers@[3].1@
                == "https://www.j1fm.tokyo/"@,
    {
        let headers: Vec<(&'static str, &'static str)> = vec![
            ("Accept", "*/*"),
            ("Accept-Language", "en-US,en;q=0.9"),
            ("Origin", "https://www.j1fm.tokyo"),
            ("Referer", "https://www.j1fm.tokyo/"),
        ];
        FeedRequest {
            url: "https://json.j1fm.tokyo/whatweplay.json",
            user_agent: "Kopuz/0.5.5",
            headers,
        }
    }

    /// Takes in the outcome of a fetch (`None` when the request failed or its
    /// body was no feed) and returns the metadata to announce, if any.
    pub fn observe(&mut self, response: &Option<J1Response>) -> (news: Option<RadioMetadata>)
        ensures
            *response is None ==> news is None && final(self).last() == old(self).last(),
            *response matches Some(feed) ==> forall|i: int|
                0 <= i < feed.station@.len() && (#[trigger] feed.station@[i]).name@ == (if old(
                    self,
                ).stream() == "J1HITS"@ {
                    "J1 HITS"@
                } else {
                    "J1 GOLD"@
                }) && (forall|j: int|
                    0 <= j < i ==> (#[trigger] feed.station@[j]).name@ != feed.station@[i].name@)
                    ==> {
                    &&& final(self).last() == feed.station@[i].title@
                    &&& feed.station@[i].title@ == old(self).last() ==> news is None
                    &&& feed.station@[i].title@ != old(self).last() ==> {
                        &&& news is Some
                        &&& news->0.title@ == feed.station@[i].title@
                        &&& news->0.artist@ == feed.station@[i].artist@
                        &&& news->0.cover_url is Some
                        &&& news->0.cover_url->0@ == feed.station@[i].image_url@
                    }
                },
            *response matches Some(feed) ==> ((forall|i: int|
                0 <= i < feed.station@.len() ==> (#[trigger] feed.station@[i]).name@ != (if old(
                    self,
                ).stream() == "J1HITS"@ {
                    "J1 HITS"@
                } else {
                    "J1 GOLD"@
                })) ==> news is None && final(self).last() == old(self).last()),
            final(self).stream() == old(self).stream(),
            final(self).last() == radio::next_key(
                old(self).last(),
                j1_offer(old(self).stream(), response_view(*response)),
            ),
            (match news {
                Some(meta) => Some(meta@),
                None => None,
            }) == radio::announcement(
                old(self).last(),
                j1_offer(old(self).stream(), response_view(*response)),
            ),
    {
        let stations = match response {
            None => {
                return None;
            },
            Some(feed) => &feed.station,
        };
        match find_station(stations, target_name(self.stream_id.as_str())) {
            None => None,
            Some(i) => {
                let station = &stations[i];
                let meta = RadioMetadata {
                    title: station.title.clone(),
                    artist: station.artist.clone(),
                    cover_url: Some(station.image_url.clone()),
                };
                self.announcer.offer(station.title.clone(), meta)
            },
        }
    }

    /// Takes in the outcome of a fetch, sends what is to be announced and
    /// decides how polling goes on: it stops exactly when there was something
    /// to announce and it came back.
    pub fn poll(
        &mut self,
        response: &Option<J1Response>,
        outbox: &mut Outbox<RadioMetadata>,
    ) -> (action: PollAction)
        ensures
            *response is None ==> {
                &&& final(outbox).sent() == old(outbox).sent()
                &&& final(outbox).refused() == old(outbox).refused()
                &&& final(self).last() == old(self).last()
                &&& action == PollAction::Sleep(2)
            },
            *response matches Some(feed) ==> forall|i: int|
                0 <= i < feed.station@.len() && (#[trigger] feed.station@[i]).name@ == (if old(
                    self,
                ).stream() == "J1HITS"@ {
                    "J1 HITS"@
                } else {
                    "J1 GOLD"@
                }) && (forall|j: int|
                    0 <= j < i ==> (#[trigger] feed.station@[j]).name@ != feed.station@[i].name@)
                    ==> {
                    &&& final(self).last() == feed.station@[i].title@
                    &&& feed.station@[i].title@ == old(self).last() ==> {
                        &&& final(outbox).sent() == old(outbox).sent()
                        &&& final(outbox).refused() == old(outbox).refused()
                        &&& action == PollAction::Sleep(2)
                    }
                    &&& feed.station@[i].title@ != old(self).last() ==> {
                        &&& final(outbox).sent().len() == old(outbox).sent().len() + 1
                        &&& final(outbox).sent().drop_last() == old(outbox).sent()
                        &&& final(outbox).sent().last().title@ == feed.station@[i].title@
                        &&& final(outbox).sent().last().artist@ == feed.station@[i].artist@
                        &&& final(outbox).sent().last().cover_url is Some
                        &&& final(outbox).sent().last().cover_url->0@
                            == feed.station@[i].image_url@
                        &&& action == (if final(outbox).refused() {
                            PollAction::Stop(final(outbox).sent().last())
                        } else {
                            PollAction::Sleep(2)
                        })
                    }
                },
            *response matches Some(feed) ==> ((forall|i: int|
                0 <= i < feed.station@.len() ==> (#[trigger] feed.station@[i]).name@ != (if old(
                    self,
                ).stream() == "J1HITS"@ {
                    "J1 HITS"@
                } else {
                    "J1 GOLD"@
                })) ==> {
                &&& final(outbox).sent() == old(outbox).sent()
                &&& final(outbox).refused() == old(outbox).refused()
                &&& final(self).last() == old(self).last()
                &&& action == PollAction::Sleep(2)
            }),
            final(outbox).channel() == old(outbox).channel(),
            final(self).stream() == old(self).stream(),
            final(self).last() == radio::next_key(
                old(self).last(),
                j1_offer(old(self).stream(), response_view(*response)),
            ),
            ({
                let news = radio::announcement(
                    old(self).last(),
                    j1_offer(old(self).stream(), response_view(*response)),
                );
                &&& radio::sent_news(old(outbox).sent(), final(outbox).sent(), news)
                &&& news is None ==> final(outbox).refused() == old(outbox).refused()
                &&& action == (if news is Some && final(outbox).refused() {
                    PollAction::Stop(final(outbox).sent().last())
                } else {
                    PollAction::Sleep(J1_INTERVAL)
                })
            }),
    {
        let news = self.observe(response);
        deliver(outbox, news, J1_INTERVAL)
    }
}

/// The tracks offered over a run of responses.
pub open spec fn j1_offers(
    stream_id: Seq<char>,
    responses: Seq<Option<Seq<J1StationView>>>,
) -> Seq<Option<Offer>> {
    responses.map_values(|r: Option<Seq<J1StationView>>| j1_offer(stream_id, r))
}

/// The metadata announced on a stream over a run of responses.
pub open spec fn j1_announced(
    stream_id: Seq<char>,
    responses: Seq<Option<Seq<J1StationView>>>,
) -> Seq<RadioMetadataView> {
    radio::run_news(j1_offers(stream_id, responses)).map_values(
        |o: Offer| o.meta,
    )
}

/// One more response to a poller: what is announced grows by the announcement
/// that the poller makes of it, and the title that it remembers moves on.
pub proof fn j1_response_extends_run(
    stream_id: Seq<char>,
    responses: Seq<Option<Seq<J1StationView>>>,
    response: Option<Seq<J1StationView>>,
)
    ensures
        ({
            let last = radio::run_key(j1_offers(stream_id, responses));
            let offer = j1_offer(stream_id, response);
            &&& radio::run_key(j1_offers(stream_id, responses.push(response)))
                == radio::next_key(last, offer)
            &&& j1_announced(stream_id, responses.push(response)) == (match radio::announcement(
                last,
                offer,
            ) {
                Some(meta) => j1_announced(stream_id, responses).push(meta),
                None => j1_announced(stream_id, responses),
            })
        }),
{
    let offers = j1_offers(stream_id, responses);
    let offer = j1_offer(stream_id, response);
    assert(j1_offers(stream_id, responses.push(response)) =~= offers.push(offer));
    radio::run_grows(offers, offer);
    assert(j1_announced(stream_id, responses.push(response)) =~= (match radio::announcement(
        radio::run_key(offers),
        offer,
    ) {
        Some(meta) => j1_announced(stream_id, responses).push(meta),
        None => j1_announced(stream_id, responses),
    }));
}

/// A poller that takes in a run of responses one by one announces exactly what
/// is announced over the run, in order. `keys` holds the title that it
/// remembers before the first response and after each one, and `news` what it
/// makes of each.
pub proof fn j1_poller_follows_run(
    stream_id: Seq<char>,
    responses: Seq<Option<Seq<J1StationView>>>,
    keys: Seq<Seq<char>>,
    news: Seq<Option<RadioMetadataView>>,
)
    requires
        radio::follows(j1_offers(stream_id, responses), keys, news),
    ensures
        keys.last() == radio::run_key(j1_offers(stream_id, responses)),
        radio::heard(news) == j1_announced(stream_id, responses),
{
    radio::poller_follows_run(j1_offers(stream_id, responses), keys, news);
}

/// Everything that an announced offer consists of agrees with its key.
proof fn news_keys_are_titles(stream_id: Seq<char>, responses: Seq<Option<Seq<J1StationView>>>)
    ensures
        forall|i: int|
            0 <= i < radio::run_news(j1_offers(stream_id, responses)).len() ==> {
                let o = #[trigger] radio::run_news(j1_offers(stream_id, responses))[i];
                o.key == o.meta.title && o.meta.cover_url is Some
            },
    decreases responses.len(),
{
    if responses.len() > 0 {
        news_keys_are_titles(stream_id, responses.drop_last());
        assert(j1_offers(stream_id, responses).drop_last() =~= j1_offers(
            stream_id,
            responses.drop_last(),
        ));
    }
}

/// Whatever the feed answers over time, a listener never hears the same title
/// announced twice in a row, never hears an empty title first, and always gets
/// a cover.
pub proof fn j1_titles_change(stream_id: Seq<char>, responses: Seq<Option<Seq<J1StationView>>>)
    ensures
        ({
            let heard = j1_announced(stream_id, responses);
            &&& forall|i: int|
                0 <= i < heard.len() - 1 ==> (#[trigger] heard[i]).title != heard[i + 1].title
            &&& heard.len() > 0 ==> heard[0].title != Seq::<char>::empty()
            &&& forall|i: int| 0 <= i < heard.len() ==> (#[trigger] heard[i]).cover_url is Some
        }),
{
    radio::never_announces_twice_in_a_row(j1_offers(stream_id, responses));
    news_keys_are_titles(stream_id, responses);
    let news = radio::run_news(j1_offers(stream_id, responses));
    let heard = j1_announced(stream_id, responses);
    assert forall|i: int| 0 <= i < heard.len() - 1 implies (#[trigger] heard[i]).title != heard[i
        + 1].title by {
        assert(news[i].key != news[i + 1].key);
    }
    assert forall|i: int| 0 <= i < heard.len() implies (#[trigger] heard[i]).cover_url is Some by {
        assert(news[i].meta.cover_url is Some);
    }
}

/// A failed fetch, and a feed without the stream's station, announce nothing
/// and are forgotten.
pub proof fn fetch_without_station_is_ignored(
    stream_id: Seq<char>,
    last: Seq<char>,
    stations: Seq<J1StationView>,
)
    requires
        forall|i: int|
            0 <= i < stations.len() ==> (#[trigger] stations[i]).name != target_name_spec(
                stream_id,
            ),
    ensures
        radio::announcement(last, j1_offer(stream_id, None)) is None,
        radio::next_key(last, j1_offer(stream_id, None)) == last,
        radio::announcement(last, j1_offer(stream_id, Some(stations))) is None,
        radio::next_key(last, j1_offer(stream_id, Some(stations))) == last,
{
    absent_name_is_not_found(stations, target_name_spec(stream_id));
}

proof fn absent_name_is_not_found(stations: Seq<J1StationView>, name: Seq<char>)
    requires
        forall|i: int| 0 <= i < stations.len() ==> (#[trigger] stations[i]).name != name,
    ensures
        first_named(stations, name) is None,
    decreases stations.len(),
{
    if stations.len() > 0 {
        assert(stations[0].name != name);
        let rest = stations.drop_first();
        assert forall|i: int| 0 <= i < rest.len() implies (#[trigger] rest[i]).name != name by {
            assert(stations[i + 1].name != name);
        }
        absent_name_is_not_found(rest, name);
    }
}

/// A stream is heard as the hits station exactly when it is named `J1HITS`.
pub proof fn hits_stream_only(stream_id: Seq<char>)
    ensures
        target_name_spec(stream_id) == "J1 HITS"@ <==> stream_id == "J1HITS"@,
{
    reveal_strlit("J1 HITS");
    reveal_strlit("J1 GOLD");
    assert("J1 HITS"@[3] != "J1 GOLD"@[3]);
}

/// The entries of other stations have no influence: leaving them out of the
/// response changes nothing for the stream.
pub proof fn other_stations_do_not_matter(
    stream_id: Seq<char>,
    before: Seq<J1StationView>,
    other: J1StationView,
    after: Seq<J1StationView>,
)
    requires
        other.name != target_name_spec(stream_id),
    ensures
        j1_offer(stream_id, Some(before.push(other) + after)) == j1_offer(
            stream_id,
            Some(before + after),
        ),
    decreases before.len(),
{
    let name = target_name_spec(stream_id);
    if before.len() == 0 {
        assert((before.push(other) + after).drop_first() =~= before + after);
    } else {
        other_stations_do_not_matter(stream_id, before.drop_first(), other, after);
        assert((before.push(other) + after).drop_first() =~= before.drop_first().push(other)
            + after);
        assert((before + after).drop_first() =~= before.drop_first() + after);
    }
}

/// What a stream's listener is offered is the first entry of the stream's
/// station, and all of it as the feed has it: title, artist and cover.
pub proof fn offered_track_is_the_stations(
    stream_id: Seq<char>,
    stations: Seq<J1StationView>,
    i: int,
)
    requires
        0 <= i < stations.len(),
        stations[i].name == (if stream_id == "J1HITS"@ {
            "J1 HITS"@
        } else {
            "J1 GOLD"@
        }),
        forall|j: int| 0 <= j < i ==> (#[trigger] stations[j]).name != stations[i].name,
    ensures
        j1_offer(stream_id, Some(stations)) is Some,
        j1_offer(stream_id, Some(stations))->0.key == stations[i].title,
        j1_offer(stream_id, Some(stations))->0.meta.title == stations[i].title,
        j1_offer(stream_id, Some(stations))->0.meta.artist == stations[i].artist,
        j1_offer(stream_id, Some(stations))->0.meta.cover_url == Some(stations[i].image_url),
{
    first_entry_is_found(stations, stations[i].name, i);
}

proof fn first_entry_is_found(stations: Seq<J1StationView>, name: Seq<char>, i: int)
    requires
        0 <= i < stations.len(),
        stations[i].name == name,
        forall|j: int| 0 <= j < i ==> (#[trigger] stations[j]).name != name,
    ensures
        first_named(stations, name) == Some(stations[i]),
    decreases i,
{
    if i > 0 {
        assert(stations[0].name != name);
        let rest = stations.drop_first();
        assert forall|j: int| 0 <= j < i - 1 implies (#[trigger] rest[j]).name != name by {
            assert(stations[j + 1].name != name);
        }
        first_entry_is_found(rest, name, i - 1);
    }
}

/// The model of an entry, and of a feed, shows every part of it as it is.
pub proof fn feed_is_shown_whole(feed: J1Response, i: int)
    requires
        0 <= i < feed.station@.len(),
    ensures
        feed@.len() == feed.station@.len(),
        feed@[i].name == feed.station@[i].name@,
        feed@[i].title == feed.station@[i].title@,
        feed@[i].artist == feed.station@[i].artist@,
        feed@[i].image_url == feed.station@[i].image_url@,
{
}

/// Nothing is offered to the listener of a stream whose station the feed does
/// not name.
pub proof fn missing_station_offers_nothing(stream_id: Seq<char>, stations: Seq<J1StationView>)
    requires
        forall|i: int|
            0 <= i < stations.len() ==> (#[trigger] stations[i]).name != (if stream_id
                == "J1HITS"@ {
                "J1 HITS"@
            } else {
                "J1 GOLD"@
            }),
    ensures
        j1_offer(stream_id, Some(stations)) is None,
    decreases stations.len(),
{
    if stations.len() > 0 {
        assert(stations[0].name != target_name_spec(stream_id));
        let rest = stations.drop_first();
        assert forall|i: int| 0 <= i < rest.len() implies (#[trigger] rest[i]).name != (
        if stream_id == "J1HITS"@ {
            "J1 HITS"@
        } else {
            "J1 GOLD"@
        }) by {
            assert(stations[i + 1] == rest[i]);
        }
        missing_station_offers_nothing(stream_id, rest);
    }
}

} // verus!
