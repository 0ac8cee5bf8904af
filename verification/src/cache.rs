//! Display names of channels and guilds, fetched once and kept.

use std::collections::{HashMap, HashSet};
use std::sync::Arc;
use vstd::prelude::*;
use vstd::std_specs::hash::group_hash_axioms;
use vstd::string::*;

verus! {

/// Where a message was seen: the channel's name and, for a channel that
/// belongs to a guild, the guild's name.
#[derive(Debug, PartialEq, Eq)]
pub struct Location {
    pub guild_name: Option<Arc<String>>,
    pub channel_name: String,
}

/// A location as plain text.
pub struct LocationView {
    pub guild_name: Option<Seq<char>>,
    pub channel_name: Seq<char>,
}

impl View for Location {
    type V = LocationView;

    open spec fn view(&self) -> LocationView {
        LocationView {
            guild_name: match self.guild_name {
                Some(name) => Some(name@),
                None => None,
            },
            channel_name: self.channel_name@,
        }
    }
}

/// A channel as the event stream describes it, reduced to its display name.
#[derive(Clone, Debug, PartialEq, Eq)]
pub enum Channel {
    /// A text channel of a guild.
    Guild(String),
    /// A direct conversation with one user.
    Private(String),
    /// A conversation among several users.
    Group(String),
}

impl Channel {
    /// The display name, whatever the kind of channel.
    pub open spec fn name(self) -> Seq<char> {
        match self {
            Channel::Guild(name) => name@,
            Channel::Private(name) => name@,
            Channel::Group(name) => name@,
        }
    }
}

/// The text that stands for a location: `guild > channel`, or the channel
/// alone where there is no guild.
pub open spec fn location_text(location: LocationView) -> Seq<char> {
    match location.guild_name {
        Some(guild) => guild + " > "@ + location.channel_name,
        None => location.channel_name,
    }
}

impl Default for Location {
    /// The placeholder shown when a location could not be resolved.
    fn default() -> (location: Location)
        ensures
            location@ == (LocationView { guild_name: None, channel_name: "?"@ }),
    {
        Location { guild_name: None, channel_name: String::from_str("?") }
    }
}

impl Clone for Location {
    fn clone(&self) -> (copy: Location)
        ensures
            copy@ == self@,
    {
        let guild_name = match &self.guild_name {
            Some(name) => Some(name.clone()),
            None => None,
        };
        Location { guild_name, channel_name: self.channel_name.clone() }
    }
}

impl Location {
    /// The location of `channel`, under `guild_name` if it has one.
    pub fn new(guild_name: Option<Arc<String>>, channel: Channel) -> (location: Location)
        ensures
            location.guild_name == guild_name,
            location.channel_name@ == channel.name(),
    {
        let channel_name = match channel {
            Channel::Guild(name) => name,
            Channel::Private(name) => name,
            Channel::Group(name) => name,
        };
        Location { guild_name, channel_name }
    }

    /// The location as display text.
    pub fn to_string(&self) -> (text: String)
        ensures
            text@ == location_text(self@),
    {
        match &self.guild_name {
            Some(guild) => {
                let mut text = String::from_str(guild.as_str());
                text.append(" > ");
                text.append(self.channel_name.as_str());
                text
            },
            None => self.channel_name.clone(),
        }
    }
}

/// What a cache says when it is asked for a key.
#[derive(Debug, PartialEq, Eq)]
pub enum Lookup<T> {
    /// The value is known; nothing is to be fetched.
    Known(T),
    /// Somebody is fetching the value: wait, and ask again.
    Wait,
    /// The value is the asker's to fetch, and to hand in whatever comes of
    /// it. Until then everybody else is told to wait.
    Fetch,
}

/// One cache as plain values: what is cached, and which keys somebody is
/// fetching.
pub struct Flight<V> {
    pub cached: Map<u64, V>,
    pub in_flight: Set<u64>,
}

/// Something that happens to a cache: it is asked for a key, or the outcome
/// of a fetch is handed in, `None` standing for a fetch that failed.
pub enum FlightEvent<V> {
    Begin(u64),
    Complete(u64, Option<V>),
}

/// What a cache answers when it is asked for `key`.
pub open spec fn asked<V>(flight: Flight<V>, key: u64) -> Lookup<V> {
    if flight.cached.contains_key(key) {
        Lookup::Known(flight.cached[key])
    } else if flight.in_flight.contains(key) {
        Lookup::Wait
    } else {
        Lookup::Fetch
    }
}

/// The cache once it was asked for `key`: the key is in flight if the asker
/// was told to fetch, and nothing has changed otherwise.
pub open spec fn begun<V>(flight: Flight<V>, key: u64) -> Flight<V> {
    if asked(flight, key) is Fetch {
        Flight { in_flight: flight.in_flight.insert(key), ..flight }
    } else {
        flight
    }
}

/// The cache once the outcome of a fetch of `key` was handed in: the key is
/// no longer in flight, and a value that was fetched is cached unless one
/// was cached before. A failure caches nothing.
pub open spec fn completed<V>(flight: Flight<V>, key: u64, fetched: Option<V>) -> Flight<V> {
    Flight {
        cached: match fetched {
            Some(value) => if flight.cached.contains_key(key) {
                flight.cached
            } else {
                flight.cached.insert(key, value)
            },
            None => flight.cached,
        },
        in_flight: flight.in_flight.remove(key),
    }
}

/// What the one who hands in the outcome of a fetch gets back: the value
/// cached before where there is one, else what was fetched.
pub open spec fn resolved<V>(flight: Flight<V>, key: u64, fetched: Option<V>) -> Option<V> {
    if flight.cached.contains_key(key) {
        Some(flight.cached[key])
    } else {
        fetched
    }
}

/// The cache after one event.
pub open spec fn stepped<V>(flight: Flight<V>, event: FlightEvent<V>) -> Flight<V> {
    match event {
        FlightEvent::Begin(key) => begun(flight, key),
        FlightEvent::Complete(key, fetched) => completed(flight, key, fetched),
    }
}

/// The cache after a run of events.
pub open spec fn ran<V>(flight: Flight<V>, events: Seq<FlightEvent<V>>) -> Flight<V>
    decreases events.len(),
{
    if events.len() == 0 {
        flight
    } else {
        stepped(ran(flight, events.drop_last()), events.last())
    }
}

/// Whether event `at` of a run asks for `key` and is told to fetch.
pub open spec fn fetches<V>(
    flight: Flight<V>,
    events: Seq<FlightEvent<V>>,
    at: int,
    key: u64,
) -> bool {
    &&& 0 <= at < events.len()
    &&& events[at] == FlightEvent::<V>::Begin(key)
    &&& asked(ran(flight, events.take(at)), key) is Fetch
}

/// Whether event `at` of a run hands in an outcome for `key`.
pub open spec fn completes<V>(events: Seq<FlightEvent<V>>, at: int, key: u64) -> bool {
    &&& 0 <= at < events.len()
    &&& events[at] matches FlightEvent::Complete(done, _)
    &&& done == key
}

/// What is cached stays cached, with the value it was cached with.
pub proof fn cached_stays<V>(
    flight: Flight<V>,
    events: Seq<FlightEvent<V>>,
    from: int,
    to: int,
    key: u64,
)
    requires
        0 <= from <= to <= events.len(),
        ran(flight, events.take(from)).cached.contains_key(key),
    ensures
        ran(flight, events.take(to)).cached.contains_key(key),
        ran(flight, events.take(to)).cached[key] == ran(flight, events.take(from)).cached[key],
    decreases to - from,
{
    if from < to {
        cached_stays(flight, events, from, to - 1, key);
        assert(events.take(to).drop_last() =~= events.take(to - 1));
    }
}

/// A key stays in flight until an outcome is handed in for it.
proof fn in_flight_stays<V>(
    flight: Flight<V>,
    events: Seq<FlightEvent<V>>,
    from: int,
    to: int,
    key: u64,
)
    requires
        0 <= from <= to <= events.len(),
        ran(flight, events.take(from)).in_flight.contains(key),
        forall|at: int| from <= at < to ==> !completes(events, at, key),
    ensures
        ran(flight, events.take(to)).in_flight.contains(key),
    decreases to - from,
{
    if from < to {
        in_flight_stays(flight, events, from, to - 1, key);
        assert(events.take(to).drop_last() =~= events.take(to - 1));
        assert(!completes(events, to - 1, key));
    }
}

/// However many callers ask a cache for one key, and in whatever order
/// their calls take effect: between two of them that are told to fetch, a
/// fetch of that key has failed, and none has succeeded. So a key is
/// fetched once for as long as fetching it does not fail.
pub proof fn single_flight<V>(
    flight: Flight<V>,
    events: Seq<FlightEvent<V>>,
    key: u64,
    first: int,
    second: int,
)
    requires
        first < second,
        fetches(flight, events, first, key),
        fetches(flight, events, second, key),
    ensures
        exists|at: int|
            first < at < second && #[trigger] events[at] == FlightEvent::<V>::Complete(key, None),
        forall|at: int|
            first < at < second && #[trigger] completes(events, at, key) ==> events[at]
                == FlightEvent::<V>::Complete(key, None),
{
    assert(events.take(first + 1).drop_last() =~= events.take(first));
    assert(ran(flight, events.take(first + 1)).in_flight.contains(key));
    assert forall|at: int| first < at < second && #[trigger] completes(events, at, key) implies events[at]
        == FlightEvent::<V>::Complete(key, None) by {
        if events[at] != FlightEvent::<V>::Complete(key, None) {
            assert(events.take(at + 1).drop_last() =~= events.take(at));
            assert(ran(flight, events.take(at + 1)).cached.contains_key(key));
            cached_stays(flight, events, at + 1, second, key);
        }
    }
    if forall|at: int| first < at < second ==> !completes(events, at, key) {
        in_flight_stays(flight, events, first + 1, second, key);
    } else {
        let at = choose|at: int| first < at < second && completes(events, at, key);
        assert(events[at] == FlightEvent::<V>::Complete(key, None));
    }
}

/// Once a fetch of a key has succeeded, nobody is told to fetch that key
/// again: whoever asks is given the value that was cached first.
pub proof fn fetched_once<V>(
    flight: Flight<V>,
    events: Seq<FlightEvent<V>>,
    key: u64,
    done: int,
    later: int,
)
    requires
        0 <= done < later <= events.len(),
        completes(events, done, key),
        events[done] != FlightEvent::<V>::Complete(key, None),
    ensures
        asked(ran(flight, events.take(later)), key) is Known,
        !fetches(flight, events, later, key),
{
    assert(events.take(done + 1).drop_last() =~= events.take(done));
    assert(ran(flight, events.take(done + 1)).cached.contains_key(key));
    cached_stays(flight, events, done + 1, later, key);
}

/// A fetch that failed is not held against the key: nothing is cached, and
/// the next one who asks is told to fetch.
pub proof fn failure_is_not_cached<V>(flight: Flight<V>, key: u64)
    requires
        asked(flight, key) is Fetch,
    ensures
        completed(begun(flight, key), key, None).cached == flight.cached,
        asked(completed(begun(flight, key), key, None), key) is Fetch,
{
}

/// A fetch that succeeded is cached: the next one who asks is given the
/// value, and is not told to fetch.
pub proof fn success_is_cached<V>(flight: Flight<V>, key: u64, value: V)
    requires
        asked(flight, key) is Fetch,
    ensures
        asked(completed(begun(flight, key), key, Some(value)), key) == Lookup::Known(value),
{
}

/// The names of channels and guilds that are known, and the ids that
/// somebody is fetching. Channels and guilds are cached apart, so that the
/// channels of one guild share its name.
pub struct LocationCache {
    channel_map: HashMap<u64, Location>,
    guild_map: HashMap<u64, Arc<String>>,
    channels_in_flight: HashSet<u64>,
    guilds_in_flight: HashSet<u64>,
}

/// The two caches as plain values.
pub struct LocationCacheView {
    pub channels: Flight<LocationView>,
    pub guilds: Flight<Seq<char>>,
}

impl View for LocationCache {
    type V = LocationCacheView;

    closed spec fn view(&self) -> LocationCacheView {
        LocationCacheView {
            channels: Flight {
                cached: self.channel_map@.map_values(|location: Location| location@),
                in_flight: self.channels_in_flight@,
            },
            guilds: Flight {
                cached: self.guild_map@.map_values(|name: Arc<String>| name@),
                in_flight: self.guilds_in_flight@,
            },
        }
    }
}

/// An answer as plain values.
pub open spec fn location_lookup(step: Lookup<Location>) -> Lookup<LocationView> {
    match step {
        Lookup::Known(location) => Lookup::Known(location@),
        Lookup::Wait => Lookup::Wait,
        Lookup::Fetch => Lookup::Fetch,
    }
}

/// An answer as plain values.
pub open spec fn guild_lookup(step: Lookup<Arc<String>>) -> Lookup<Seq<char>> {
    match step {
        Lookup::Known(name) => Lookup::Known(name@),
        Lookup::Wait => Lookup::Wait,
        Lookup::Fetch => Lookup::Fetch,
    }
}

/// What was fetched of a guild, as plain text; a failure is nothing.
pub open spec fn fetched_guild(fetched: Result<String, ()>) -> Option<Seq<char>> {
    match fetched {
        Ok(name) => Some(name@),
        Err(_) => None,
    }
}

/// The names that the fetches for a channel gave, put together. `guild` is
/// nothing for a channel outside any guild, and holds nothing where the
/// guild's name could not be had; `channel` is nothing where the channel
/// could not be fetched. If either failed there is no location.
pub open spec fn located(guild: Option<Option<Seq<char>>>, channel: Option<Seq<char>>) -> Option<
    LocationView,
> {
    match (guild, channel) {
        (Some(Some(guild_name)), Some(channel_name)) => Some(
            LocationView { guild_name: Some(guild_name), channel_name },
        ),
        (None, Some(channel_name)) => Some(LocationView { guild_name: None, channel_name }),
        _ => None,
    }
}

/// How the resolution of a channel's guild ended, as plain text.
pub open spec fn guild_outcome(guild: Option<Result<Arc<String>, ()>>) -> Option<
    Option<Seq<char>>,
> {
    match guild {
        Some(resolved) => Some(name_of(resolved)),
        None => None,
    }
}

/// What was fetched of a channel, as plain text; a failure is nothing.
pub open spec fn fetched_channel(fetched: Result<Channel, ()>) -> Option<Seq<char>> {
    match fetched {
        Ok(found) => Some(found.name()),
        Err(_) => None,
    }
}

/// The location that the fetches for a channel give: the channel's name
/// under the guild's, where the channel was fetched and the guild's name,
/// if the channel has a guild, was resolved. If either failed there is none.
pub open spec fn fetched_location(
    guild: Option<Result<Arc<String>, ()>>,
    channel: Result<Channel, ()>,
) -> Option<LocationView> {
    located(guild_outcome(guild), fetched_channel(channel))
}

/// A resolved location as plain values; a failure is nothing.
pub open spec fn location_of(resolved: Result<Location, ()>) -> Option<LocationView> {
    match resolved {
        Ok(location) => Some(location@),
        Err(_) => None,
    }
}

/// A resolved name as plain text; a failure is nothing.
pub open spec fn name_of(resolved: Result<Arc<String>, ()>) -> Option<Seq<char>> {
    match resolved {
        Ok(name) => Some(name@),
        Err(_) => None,
    }
}

impl LocationCache {
    /// A cache that knows nothing.
    pub fn new() -> (cache: LocationCache)
        ensures
            cache@ == (LocationCacheView {
                channels: Flight { cached: Map::empty(), in_flight: Set::empty() },
                guilds: Flight { cached: Map::empty(), in_flight: Set::empty() },
            }),
    {
        let cache = LocationCache {
            channel_map: HashMap::new(),
            guild_map: HashMap::new(),
            channels_in_flight: HashSet::new(),
            guilds_in_flight: HashSet::new(),
        };
        assert(cache@.channels.cached =~= Map::empty());
        assert(cache@.guilds.cached =~= Map::empty());
        cache
    }

    /// Asks for the location of a channel. A known location is given at
    /// once. Of an unknown one the first to ask is told to fetch it; who
    /// asks while it is being fetched is told to wait.
    pub fn get_and_cache_location(&mut self, channel_id: u64) -> (step: Lookup<Location>)
        ensures
            location_lookup(step) == asked(old(self)@.channels, channel_id),
            final(self)@ == (LocationCacheView {
                channels: begun(old(self)@.channels, channel_id),
                ..old(self)@
            }),
    {
        broadcast use group_hash_axioms;

        match self.channel_map.get(&channel_id) {
            Some(location) => Lookup::Known(location.clone()),
            None => {
                if self.channels_in_flight.contains(&channel_id) {
                    Lookup::Wait
                } else {
                    self.channels_in_flight.insert(channel_id);
                    Lookup::Fetch
                }
            },
        }
    }

    /// Hands in what the fetches for a channel gave: the guild's name as it
    /// was resolved, if the channel has a guild, and the channel. If both
    /// are there the location is cached and given back; if a fetch failed,
    /// nothing is cached and the next to ask fetches again.
    pub fn cache_location(
        &mut self,
        channel_id: u64,
        guild: Option<Result<Arc<String>, ()>>,
        channel: Result<Channel, ()>,
    ) -> (location: Result<Location, ()>)
        ensures
            location_of(location) == resolved(
                old(self)@.channels,
                channel_id,
                fetched_location(guild, channel),
            ),
            final(self)@ == (LocationCacheView {
                channels: completed(
                    old(self)@.channels,
                    channel_id,
                    fetched_location(guild, channel),
                ),
                ..old(self)@
            }),
    {
        broadcast use group_hash_axioms;

        self.channels_in_flight.remove(&channel_id);
        let ghost before = self.channel_map@;
        let location = match self.channel_map.get(&channel_id) {
            Some(known) => {
                let location = known.clone();
                return Ok(location);
            },
            None => match (guild, channel) {
                (Some(Ok(guild_name)), Ok(found)) => Location::new(Some(guild_name), found),
                (None, Ok(found)) => Location::new(None, found),
                _ => {
                    return Err(());
                },
            },
        };
        let kept = location.clone();
        self.channel_map.insert(channel_id, location);
        assert(self@.channels.cached =~= old(self)@.channels.cached.insert(channel_id, kept@));
        Ok(kept)
    }

    /// Asks for the name of a guild. A known name is given at once. Of an
    /// unknown one the first to ask is told to fetch it; who asks while it
    /// is being fetched is told to wait.
    pub fn get_and_cache_guild(&mut self, guild_id: u64) -> (step: Lookup<Arc<String>>)
        ensures
            guild_lookup(step) == asked(old(self)@.guilds, guild_id),
            final(self)@ == (LocationCacheView {
                guilds: begun(old(self)@.guilds, guild_id),
                ..old(self)@
            }),
    {
        broadcast use group_hash_axioms;

        match self.guild_map.get(&guild_id) {
            Some(name) => Lookup::Known(name.clone()),
            None => {
                if self.guilds_in_flight.contains(&guild_id) {
                    Lookup::Wait
                } else {
                    self.guilds_in_flight.insert(guild_id);
                    Lookup::Fetch
                }
            },
        }
    }

    /// Hands in what the fetch of a guild gave. A name is cached and given
    /// back, shared by all who use it; after a failure nothing is cached and
    /// the next to ask fetches again.
    pub fn cache_guild(&mut self, guild_id: u64, fetched: Result<String, ()>) -> (name: Result<
        Arc<String>,
        (),
    >)
        ensures
            name_of(name) == resolved(old(self)@.guilds, guild_id, fetched_guild(fetched)),
            final(self)@ == (LocationCacheView {
                guilds: completed(old(self)@.guilds, guild_id, fetched_guild(fetched)),
                ..old(self)@
            }),
    {
        broadcast use group_hash_axioms;

        self.guilds_in_flight.remove(&guild_id);
        let shared = match self.guild_map.get(&guild_id) {
            Some(known) => {
                let shared = known.clone();
                return Ok(shared);
            },
            None => match fetched {
                Ok(name) => Arc::new(name),
                Err(_) => {
                    return Err(());
                },
            },
        };
        let kept = shared.clone();
        self.guild_map.insert(guild_id, shared);
        assert(self@.guilds.cached =~= old(self)@.guilds.cached.insert(guild_id, kept@));
        Ok(kept)
    }
}

/// How far the resolution of one location has come.
enum Stage {
    /// The cache was not asked yet, or said to wait for the channel.
    Start,
    /// The channel is this resolution's to fetch; the cache said to wait for
    /// the guild.
    AwaitGuild(u64),
    /// The guild is being fetched for this resolution.
    FetchGuild(u64),
    /// The channel is being fetched for this resolution; the guild's name
    /// is settled.
    FetchChannel(Option<Result<Arc<String>, ()>>),
}

/// The resolution of one location, from the first question to the cache to
/// the location or the failure.
pub struct Resolution {
    channel_id: u64,
    guild_id: Option<u64>,
    stage: Stage,
}

/// What the caller brings back to a resolution.
#[derive(Debug, PartialEq, Eq)]
pub enum Fetched {
    /// Nothing: the resolution begins, or was told to wait.
    Nothing,
    /// What the fetch of the guild gave.
    Guild(Result<String, ()>),
    /// What the fetch of the channel gave.
    Channel(Result<Channel, ()>),
}

/// What a resolution asks of the caller.
pub enum Demand {
    /// Nothing more: the location, or the failure.
    Done(Result<Location, ()>),
    /// To wait until the cache has changed, and come back with nothing.
    Wait(Resolution),
    /// To fetch the guild, and come back with what the fetch gave.
    FetchGuild(Resolution, u64),
    /// To fetch the channel, and come back with what the fetch gave.
    FetchChannel(Resolution, u64),
}

/// A stage as plain values.
pub enum StageView {
    Start,
    AwaitGuild(u64),
    FetchGuild(u64),
    FetchChannel(Option<Option<Seq<char>>>),
}

/// A resolution as plain values.
pub struct ResolutionView {
    pub channel_id: u64,
    pub guild_id: Option<u64>,
    pub stage: StageView,
}

/// What the caller brings back, as plain values.
pub enum FetchedView {
    Nothing,
    Guild(Option<Seq<char>>),
    Channel(Option<Seq<char>>),
}

/// What is asked of the caller, as plain values.
pub enum DemandView {
    Done(Option<LocationView>),
    Wait(ResolutionView),
    FetchGuild(ResolutionView, u64),
    FetchChannel(ResolutionView, u64),
}

impl View for Resolution {
    type V = ResolutionView;

    closed spec fn view(&self) -> ResolutionView {
        ResolutionView {
            channel_id: self.channel_id,
            guild_id: self.guild_id,
            stage: match self.stage {
                Stage::Start => StageView::Start,
                Stage::AwaitGuild(guild) => StageView::AwaitGuild(guild),
                Stage::FetchGuild(guild) => StageView::FetchGuild(guild),
                Stage::FetchChannel(guild) => StageView::FetchChannel(guild_outcome(guild)),
            },
        }
    }
}

impl View for Fetched {
    type V = FetchedView;

    open spec fn view(&self) -> FetchedView {
        match *self {
            Fetched::Nothing => FetchedView::Nothing,
            Fetched::Guild(fetched) => FetchedView::Guild(fetched_guild(fetched)),
            Fetched::Channel(fetched) => FetchedView::Channel(fetched_channel(fetched)),
        }
    }
}

impl View for Demand {
    type V = DemandView;

    open spec fn view(&self) -> DemandView {
        match *self {
            Demand::Done(location) => DemandView::Done(location_of(location)),
            Demand::Wait(resolution) => DemandView::Wait(resolution@),
            Demand::FetchGuild(resolution, guild) => DemandView::FetchGuild(resolution@, guild),
            Demand::FetchChannel(resolution, channel) => DemandView::FetchChannel(
                resolution@,
                channel,
            ),
        }
    }
}

/// What a fetch of the guild gave, if that is what the caller brought.
/// Anything else stands for a fetch that failed.
pub open spec fn brought_guild(fetched: FetchedView) -> Option<Seq<char>> {
    match fetched {
        FetchedView::Guild(name) => name,
        _ => None,
    }
}

/// What a fetch of the channel gave, if that is what the caller brought.
/// Anything else stands for a fetch that failed.
pub open spec fn brought_channel(fetched: FetchedView) -> Option<Seq<char>> {
    match fetched {
        FetchedView::Channel(name) => name,
        _ => None,
    }
}

/// The step of a resolution whose channel is its own to fetch: the guild
/// comes first. A channel outside any guild, or one whose guild is known,
/// goes on to the fetch of the channel. If the guild's name is being
/// fetched by somebody else the resolution waits; else it fetches the name.
pub open spec fn guild_step(cache: LocationCacheView, resolution: ResolutionView) -> (
    LocationCacheView,
    DemandView,
) {
    match resolution.guild_id {
        None => (
            cache,
            DemandView::FetchChannel(
                ResolutionView { stage: StageView::FetchChannel(None), ..resolution },
                resolution.channel_id,
            ),
        ),
        Some(guild) => match asked(cache.guilds, guild) {
            Lookup::Known(name) => (
                cache,
                DemandView::FetchChannel(
                    ResolutionView { stage: StageView::FetchChannel(Some(Some(name))), ..resolution },
                    resolution.channel_id,
                ),
            ),
            Lookup::Wait => (
                cache,
                DemandView::Wait(ResolutionView { stage: StageView::AwaitGuild(guild), ..resolution }),
            ),
            Lookup::Fetch => (
                LocationCacheView { guilds: begun(cache.guilds, guild), ..cache },
                DemandView::FetchGuild(
                    ResolutionView { stage: StageView::FetchGuild(guild), ..resolution },
                    guild,
                ),
            ),
        },
    }
}

/// One step of a resolution: what becomes of the cache, and what is asked
/// of the caller. A known location ends the resolution at once. An unknown
/// one is fetched by the first who asks for it: the guild's name first,
/// through the cache of guilds, then the channel, whether or not the guild's
/// name could be had. What the fetches gave is handed to the cache, and the
/// location or the failure ends the resolution.
pub open spec fn resolve_step(
    cache: LocationCacheView,
    resolution: ResolutionView,
    fetched: FetchedView,
) -> (LocationCacheView, DemandView) {
    match resolution.stage {
        StageView::Start => match asked(cache.channels, resolution.channel_id) {
            Lookup::Known(location) => (cache, DemandView::Done(Some(location))),
            Lookup::Wait => (cache, DemandView::Wait(resolution)),
            Lookup::Fetch => guild_step(
                LocationCacheView {
                    channels: begun(cache.channels, resolution.channel_id),
                    ..cache
                },
                resolution,
            ),
        },
        StageView::AwaitGuild(_) => guild_step(cache, resolution),
        StageView::FetchGuild(guild) => (
            LocationCacheView {
                guilds: completed(cache.guilds, guild, brought_guild(fetched)),
                ..cache
            },
            DemandView::FetchChannel(
                ResolutionView {
                    stage: StageView::FetchChannel(
                        Some(resolved(cache.guilds, guild, brought_guild(fetched))),
                    ),
                    ..resolution
                },
                resolution.channel_id,
            ),
        ),
        StageView::FetchChannel(guild) => {
            let location = located(guild, brought_channel(fetched));
            (
                LocationCacheView {
                    channels: completed(cache.channels, resolution.channel_id, location),
                    ..cache
                },
                DemandView::Done(resolved(cache.channels, resolution.channel_id, location)),
            )
        },
    }
}

impl Resolution {
    /// The resolution of the location of `channel_id`, a channel of the
    /// guild `guild_id` if it has one, before its first step.
    pub fn new(channel_id: u64, guild_id: Option<u64>) -> (resolution: Resolution)
        ensures
            resolution@ == (ResolutionView { channel_id, guild_id, stage: StageView::Start }),
    {
        Resolution { channel_id, guild_id, stage: Stage::Start }
    }
}

impl LocationCache {
    fn resolve_guild(&mut self, channel_id: u64, guild_id: Option<u64>) -> (demand: Demand)
        ensures
            (final(self)@, demand@) == guild_step(
                old(self)@,
                ResolutionView { channel_id, guild_id, stage: StageView::Start },
            ),
    {
        match guild_id {
            None => Demand::FetchChannel(
                Resolution { channel_id, guild_id, stage: Stage::FetchChannel(None) },
                channel_id,
            ),
            Some(guild) => match self.get_and_cache_guild(guild) {
                Lookup::Known(name) => Demand::FetchChannel(
                    Resolution { channel_id, guild_id, stage: Stage::FetchChannel(Some(Ok(name))) },
                    channel_id,
                ),
                Lookup::Wait => Demand::Wait(
                    Resolution { channel_id, guild_id, stage: Stage::AwaitGuild(guild) },
                ),
                Lookup::Fetch => Demand::FetchGuild(
                    Resolution { channel_id, guild_id, stage: Stage::FetchGuild(guild) },
                    guild,
                ),
            },
        }
    }

    /// Takes a resolution one step further, with what the caller brought
    /// back from the step before, and says what to do next.
    pub fn resolve(&mut self, resolution: Resolution, fetched: Fetched) -> (demand: Demand)
        ensures
            (final(self)@, demand@) == resolve_step(old(self)@, resolution@, fetched@),
    {
        let Resolution { channel_id, guild_id, stage } = resolution;
        match stage {
            Stage::Start => match self.get_and_cache_location(channel_id) {
                Lookup::Known(location) => Demand::Done(Ok(location)),
                Lookup::Wait => Demand::Wait(
                    Resolution { channel_id, guild_id, stage: Stage::Start },
                ),
                Lookup::Fetch => self.resolve_guild(channel_id, guild_id),
            },
            Stage::AwaitGuild(_) => self.resolve_guild(channel_id, guild_id),
            Stage::FetchGuild(guild) => {
                let outcome = match fetched {
                    Fetched::Guild(outcome) => outcome,
                    _ => Err(()),
                };
                let name = self.cache_guild(guild, outcome);
                Demand::FetchChannel(
                    Resolution { channel_id, guild_id, stage: Stage::FetchChannel(Some(name)) },
                    channel_id,
                )
            },
            Stage::FetchChannel(guild) => {
                let outcome = match fetched {
                    Fetched::Channel(outcome) => outcome,
                    _ => Err(()),
                };
                Demand::Done(self.cache_location(channel_id, guild, outcome))
            },
        }
    }
}

} // verus!
