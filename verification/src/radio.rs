//! Radio track metadata and the rule by which a poller announces it.
use crate::channel::Outbox;
use vstd::prelude::*;

verus! {

/// What a radio station is playing.
#[derive(Debug, Clone, PartialEq, Eq)]
pub struct RadioMetadata {
    pub title: String,
    pub artist: String,
    pub cover_url: Option<String>,
}

/// The model of `RadioMetadata`.
pub struct RadioMetadataView {
    pub title: Seq<char>,
    pub artist: Seq<char>,
    pub cover_url: Option<Seq<char>>,
}

/// The characters of an optional string.
pub open spec fn option_view(s: Option<String>) -> Option<Seq<char>> {
    match s {
        Some(text) => Some(text@),
        None => None,
    }
}

impl View for RadioMetadata {
    type V = RadioMetadataView;

    open spec fn view(&self) -> RadioMetadataView {
        RadioMetadataView {
            title: self.title@,
            artist: self.artist@,
            cover_url: option_view(self.cover_url),
        }
    }
}

/// The GET request that a provider repeats.
#[derive(Debug)]
pub struct FeedRequest {
    pub url: &'static str,
    pub user_agent: &'static str,
    /// Header names with their values, in sending order.
    pub headers: Vec<(&'static str, &'static str)>,
}

/// The headers of a request as pairs of character sequences.
pub open spec fn header_views(headers: Seq<(&'static str, &'static str)>) -> Seq<
    (Seq<char>, Seq<char>),
> {
    headers.map_values(|h: (&'static str, &'static str)| (h.0@, h.1@))
}

/// A track that a response names, with the text by which it is recognised.
pub struct Offer {
    pub key: Seq<char>,
    pub meta: RadioMetadataView,
}

/// Whether an offer is announced when `last` is the key announced last: only a
/// track with another key is.
pub open spec fn is_news(last: Seq<char>, offer: Option<Offer>) -> bool {
    offer is Some && offer->0.key != last
}

/// The metadata to announce for an offer.
pub open spec fn announcement(last: Seq<char>, offer: Option<Offer>) -> Option<RadioMetadataView> {
    if is_news(last, offer) {
        Some(offer->0.meta)
    } else {
        None
    }
}

/// The key to remember after an offer.
pub open spec fn next_key(last: Seq<char>, offer: Option<Offer>) -> Seq<char> {
    if is_news(last, offer) {
        offer->0.key
    } else {
        last
    }
}

/// Remembers the key of the track announced last.
#[derive(Debug)]
pub struct Announcer {
    last: String,
}

impl View for Announcer {
    type V = Seq<char>;

    closed spec fn view(&self) -> Seq<char> {
        self.last@
    }
}

impl Announcer {
    /// An announcer that has announced nothing: the remembered key is empty.
    pub fn new() -> (announcer: Announcer)
        ensures
            announcer@ == Seq::<char>::empty(),
    {
        Announcer { last: String::new() }
    }

    /// Offers a track; hands its metadata back when it is to be announced.
    pub fn offer(&mut self, key: String, meta: RadioMetadata) -> (news: Option<RadioMetadata>)
        ensures
            final(self)@ == next_key(old(self)@, Some(Offer { key: key@, meta: meta@ })),
            final(self)@ == key@,
            key@ != old(self)@ ==> news == Some(meta),
            key@ == old(self)@ ==> news is None,
    {
        if key == self.last {
            None
        } else {
            self.last = key;
            Some(meta)
        }
    }
}

/// What a poller does after it has dealt with a response.
#[derive(Debug, PartialEq, Eq)]
pub enum PollAction {
    /// Wait for so many seconds, then fetch again.
    Sleep(u64),
    /// The listener is gone: stop for good. Holds the metadata that could not
    /// be delivered.
    Stop(RadioMetadata),
}

/// Decides how polling goes on once the metadata has been handed to the
/// channel: pause if it was taken, stop if it came back.
pub fn after_send(sent: Result<(), RadioMetadata>, interval: u64) -> (action: PollAction)
    ensures
        action == (match sent {
            Ok(()) => PollAction::Sleep(interval),
            Err(returned) => PollAction::Stop(returned),
        }),
{
    match sent {
        Ok(()) => PollAction::Sleep(interval),
        Err(returned) => PollAction::Stop(returned),
    }
}

/// Sends the news, if there is any, and decides how polling goes on: it stops
/// exactly when the news came back. Whether the listener still takes it is not
/// known beforehand.
pub fn deliver(
    outbox: &mut Outbox<RadioMetadata>,
    news: Option<RadioMetadata>,
    interval: u64,
) -> (action: PollAction)
    ensures
        final(outbox).channel() == old(outbox).channel(),
        final(outbox).sent() == (match news {
            Some(meta) => old(outbox).sent().push(meta),
            None => old(outbox).sent(),
        }),
        news is None ==> final(outbox).refused() == old(outbox).refused(),
        action == (match news {
            Some(meta) if final(outbox).refused() => PollAction::Stop(meta),
            _ => PollAction::Sleep(interval),
        }),
{
    match news {
        None => PollAction::Sleep(interval),
        Some(meta) => after_send(outbox.send(meta), interval),
    }
}

/// Whether exactly the news, if there is any, was sent.
pub open spec fn sent_news(
    before: Seq<RadioMetadata>,
    after: Seq<RadioMetadata>,
    news: Option<RadioMetadataView>,
) -> bool {
    match news {
        Some(meta) => after.len() > 0 && after.drop_last() =~= before && after.last()@ == meta,
        None => after == before,
    }
}

/// The key remembered after a run of offers, starting with nothing announced.
pub open spec fn run_key(offers: Seq<Option<Offer>>) -> Seq<char>
    decreases offers.len(),
{
    if offers.len() == 0 {
        Seq::empty()
    } else {
        next_key(run_key(offers.drop_last()), offers.last())
    }
}

/// The offers that are announced over a run, in order.
pub open spec fn run_news(offers: Seq<Option<Offer>>) -> Seq<Offer>
    decreases offers.len(),
{
    if offers.len() == 0 {
        Seq::empty()
    } else if is_news(run_key(offers.drop_last()), offers.last()) {
        run_news(offers.drop_last()).push(offers.last()->0)
    } else {
        run_news(offers.drop_last())
    }
}

/// After any run the remembered key is that of the track announced last, and
/// the empty text while nothing has been announced.
pub proof fn remembers_last_announced(offers: Seq<Option<Offer>>)
    ensures
        run_news(offers).len() == 0 ==> run_key(offers) == Seq::<char>::empty(),
        run_news(offers).len() > 0 ==> run_key(offers) == run_news(offers).last().key,
    decreases offers.len(),
{
    if offers.len() > 0 {
        remembers_last_announced(offers.drop_last());
    }
}

/// Over any run, two announcements in a row never have the same key, and the
/// first one's key is not empty.
pub proof fn never_announces_twice_in_a_row(offers: Seq<Option<Offer>>)
    ensures
        forall|i: int|
            0 <= i < run_news(offers).len() - 1 ==> (#[trigger] run_news(offers)[i]).key
                != run_news(offers)[i + 1].key,
        run_news(offers).len() > 0 ==> run_news(offers)[0].key != Seq::<char>::empty(),
    decreases offers.len(),
{
    if offers.len() > 0 {
        never_announces_twice_in_a_row(offers.drop_last());
        remembers_last_announced(offers.drop_last());
    }
}

/// Offering the same track again right after it was offered announces nothing
/// and changes nothing.
pub proof fn repeated_offer_is_no_news(last: Seq<char>, offer: Option<Offer>)
    ensures
        announcement(next_key(last, offer), offer) is None,
        next_key(next_key(last, offer), offer) == next_key(last, offer),
{
}

/// One more offer extends a run: the news grows by the offer if it is
/// announced, and the remembered key moves on to the next one.
pub proof fn run_grows(offers: Seq<Option<Offer>>, offer: Option<Offer>)
    ensures
        run_key(offers.push(offer)) == next_key(run_key(offers), offer),
        run_news(offers.push(offer)) == (if is_news(run_key(offers), offer) {
            run_news(offers).push(offer->0)
        } else {
            run_news(offers)
        }),
{
    assert(offers.push(offer).drop_last() =~= offers);
}

/// The announcements heard, where each response gave one or none.
pub open spec fn heard(news: Seq<Option<RadioMetadataView>>) -> Seq<RadioMetadataView>
    decreases news.len(),
{
    if news.len() == 0 {
        Seq::empty()
    } else {
        match news.last() {
            Some(meta) => heard(news.drop_last()).push(meta),
            None => heard(news.drop_last()),
        }
    }
}

/// Whether keys and news are those of a poller that starts with nothing
/// announced and takes in the offers one by one: `keys` holds the remembered
/// key before the first offer and after each one.
pub open spec fn follows(
    offers: Seq<Option<Offer>>,
    keys: Seq<Seq<char>>,
    news: Seq<Option<RadioMetadataView>>,
) -> bool {
    &&& keys.len() == offers.len() + 1
    &&& news.len() == offers.len()
    &&& keys[0] == Seq::<char>::empty()
    &&& forall|i: int|
        0 <= i < offers.len() ==> keys[i + 1] == next_key(keys[i], #[trigger] offers[i])
    &&& forall|i: int|
        0 <= i < offers.len() ==> news[i] == announcement(keys[i], #[trigger] offers[i])
}

/// A poller that takes in a run of offers one by one ends with the key of the
/// run, and what is heard of it is exactly the news of the run.
pub proof fn poller_follows_run(
    offers: Seq<Option<Offer>>,
    keys: Seq<Seq<char>>,
    news: Seq<Option<RadioMetadataView>>,
)
    requires
        follows(offers, keys, news),
    ensures
        keys.last() == run_key(offers),
        heard(news) == run_news(offers).map_values(|o: Offer| o.meta),
    decreases offers.len(),
{
    if offers.len() == 0 {
        assert(heard(news) =~= run_news(offers).map_values(|o: Offer| o.meta));
    } else {
        let n = offers.len() - 1;
        let front = offers.drop_last();
        let front_keys = keys.drop_last();
        let front_news = news.drop_last();
        assert forall|i: int| 0 <= i < front.len() implies front_keys[i + 1] == next_key(
            front_keys[i],
            #[trigger] front[i],
        ) by {
            assert(keys[i + 1] == next_key(keys[i], offers[i]));
        }
        assert forall|i: int| 0 <= i < front.len() implies front_news[i] == announcement(
            front_keys[i],
            #[trigger] front[i],
        ) by {
            assert(news[i] == announcement(keys[i], offers[i]));
        }
        poller_follows_run(front, front_keys, front_news);
        assert(keys[n + 1] == next_key(keys[n], offers[n]));
        assert(news[n] == announcement(keys[n], offers[n]));
        assert(heard(news) =~= run_news(offers).map_values(|o: Offer| o.meta));
    }
}

/// A track is announced, as it was offered, exactly when its key is not the one
/// remembered, whatever the two texts are; the key offered is remembered then,
/// and in any case after an offer.
pub proof fn every_new_key_is_announced(last: Seq<char>, key: Seq<char>, meta: RadioMetadataView)
    ensures
        announcement(last, Some(Offer { key, meta })) == Some(meta) <==> key != last,
        announcement(last, Some(Offer { key, meta })) is None <==> key == last,
        next_key(last, Some(Offer { key, meta })) == key,
        announcement(last, None) is None,
        next_key(last, None) == last,
{
}

/// The model of metadata shows every part of it as it is.
pub proof fn metadata_is_shown_whole(meta: RadioMetadata)
    ensures
        meta@.title == meta.title@,
        meta@.artist == meta.artist@,
        meta.cover_url matches Some(url) ==> meta@.cover_url == Some(url@),
        meta.cover_url is None ==> meta@.cover_url is None,
{
}

} // verus!
