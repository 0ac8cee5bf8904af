use rns::cache::{Channel, Demand, Fetched, Location, LocationCache, Lookup, Resolution};
use std::sync::Arc;

fn general() -> Result<Channel, ()> {
    Ok(Channel::Guild("general".to_string()))
}

fn shared(name: &str) -> Arc<String> {
    Arc::new(name.to_string())
}

#[test]
fn default_location_is_a_question_mark() {
    let location = Location::default();
    assert_eq!(location.guild_name, None);
    assert_eq!(location.channel_name, "?");
    assert_eq!(location.to_string(), "?");
}

#[test]
fn location_takes_the_name_of_any_kind_of_channel() {
    assert_eq!(Location::new(None, Channel::Guild("general".to_string())).channel_name, "general");
    assert_eq!(
        Location::new(None, Channel::Private("DM with bob#0007".to_string())).channel_name,
        "DM with bob#0007"
    );
    assert_eq!(Location::new(None, Channel::Group("friends".to_string())).channel_name, "friends");
}

#[test]
fn location_keeps_the_guild_it_is_given() {
    let location = Location::new(Some(shared("My Guild")), Channel::Guild("general".to_string()));
    assert_eq!(location.guild_name, Some(shared("My Guild")));
    assert_eq!(location.channel_name, "general");
}

#[test]
fn location_text_names_guild_and_channel() {
    let location = Location::new(Some(shared("My Guild")), Channel::Guild("general".to_string()));
    assert_eq!(location.to_string(), "My Guild > general");
}

#[test]
fn location_text_without_guild_is_the_channel() {
    let location = Location::new(None, Channel::Private("DM with bob#0007".to_string()));
    assert_eq!(location.to_string(), "DM with bob#0007");
}

#[test]
fn location_clone_is_equal() {
    let location = Location::new(Some(shared("My Guild")), Channel::Guild("general".to_string()));
    assert_eq!(location.clone(), location);
}

#[test]
fn unknown_channel_is_the_first_askers_to_fetch() {
    let mut cache = LocationCache::new();
    assert_eq!(cache.get_and_cache_location(7), Lookup::Fetch);
}

#[test]
fn channel_in_flight_makes_others_wait() {
    let mut cache = LocationCache::new();
    assert_eq!(cache.get_and_cache_location(7), Lookup::Fetch);
    assert_eq!(cache.get_and_cache_location(7), Lookup::Wait);
    assert_eq!(cache.get_and_cache_location(7), Lookup::Wait);
}

#[test]
fn channels_do_not_wait_for_each_other() {
    let mut cache = LocationCache::new();
    assert_eq!(cache.get_and_cache_location(7), Lookup::Fetch);
    assert_eq!(cache.get_and_cache_location(8), Lookup::Fetch);
    assert_eq!(cache.get_and_cache_guild(7), Lookup::Fetch);
}

#[test]
fn fetched_location_is_cached() {
    let mut cache = LocationCache::new();
    assert_eq!(cache.get_and_cache_location(7), Lookup::Fetch);
    let expected = Location { guild_name: None, channel_name: "general".to_string() };
    assert_eq!(cache.cache_location(7, None, general()), Ok(expected.clone()));
    assert_eq!(cache.get_and_cache_location(7), Lookup::Known(expected.clone()));
    assert_eq!(cache.get_and_cache_location(7), Lookup::Known(expected));
}

#[test]
fn fetched_location_carries_the_guild() {
    let mut cache = LocationCache::new();
    assert_eq!(cache.get_and_cache_location(7), Lookup::Fetch);
    let expected =
        Location { guild_name: Some(shared("My Guild")), channel_name: "general".to_string() };
    assert_eq!(cache.cache_location(7, Some(Ok(shared("My Guild"))), general()), Ok(expected.clone()));
    assert_eq!(cache.get_and_cache_location(7), Lookup::Known(expected));
}

#[test]
fn failed_channel_fetch_is_not_cached() {
    let mut cache = LocationCache::new();
    assert_eq!(cache.get_and_cache_location(7), Lookup::Fetch);
    assert_eq!(cache.cache_location(7, None, Err(())), Err(()));
    assert_eq!(cache.get_and_cache_location(7), Lookup::Fetch);
    assert_eq!(
        cache.cache_location(7, None, general()),
        Ok(Location { guild_name: None, channel_name: "general".to_string() })
    );
}

#[test]
fn failed_guild_fails_the_location() {
    let mut cache = LocationCache::new();
    assert_eq!(cache.get_and_cache_location(7), Lookup::Fetch);
    assert_eq!(cache.cache_location(7, Some(Err(())), general()), Err(()));
    assert_eq!(cache.get_and_cache_location(7), Lookup::Fetch);
}

#[test]
fn first_cached_location_stays() {
    let mut cache = LocationCache::new();
    assert_eq!(cache.get_and_cache_location(7), Lookup::Fetch);
    let first = Location { guild_name: None, channel_name: "general".to_string() };
    assert_eq!(cache.cache_location(7, None, general()), Ok(first.clone()));
    assert_eq!(
        cache.cache_location(7, None, Ok(Channel::Guild("renamed".to_string()))),
        Ok(first.clone())
    );
    assert_eq!(cache.cache_location(7, None, Err(())), Ok(first.clone()));
    assert_eq!(cache.get_and_cache_location(7), Lookup::Known(first));
}

#[test]
fn unknown_guild_is_the_first_askers_to_fetch() {
    let mut cache = LocationCache::new();
    assert_eq!(cache.get_and_cache_guild(3), Lookup::Fetch);
    assert_eq!(cache.get_and_cache_guild(3), Lookup::Wait);
    assert_eq!(cache.get_and_cache_guild(4), Lookup::Fetch);
}

#[test]
fn fetched_guild_is_cached_and_shared() {
    let mut cache = LocationCache::new();
    assert_eq!(cache.get_and_cache_guild(3), Lookup::Fetch);
    let name = cache.cache_guild(3, Ok("My Guild".to_string())).unwrap();
    assert_eq!(*name, "My Guild");
    match cache.get_and_cache_guild(3) {
        Lookup::Known(again) => {
            assert_eq!(*again, "My Guild");
            assert!(Arc::ptr_eq(&name, &again));
        }
        other => panic!("{:?}", other),
    }
}

#[test]
fn failed_guild_fetch_is_not_cached() {
    let mut cache = LocationCache::new();
    assert_eq!(cache.get_and_cache_guild(3), Lookup::Fetch);
    assert_eq!(cache.cache_guild(3, Err(())), Err(()));
    assert_eq!(cache.get_and_cache_guild(3), Lookup::Fetch);
    assert_eq!(cache.cache_guild(3, Ok("My Guild".to_string())), Ok(shared("My Guild")));
    assert_eq!(cache.get_and_cache_guild(3), Lookup::Known(shared("My Guild")));
}

#[test]
fn first_cached_guild_stays() {
    let mut cache = LocationCache::new();
    assert_eq!(cache.get_and_cache_guild(3), Lookup::Fetch);
    assert_eq!(cache.cache_guild(3, Ok("My Guild".to_string())), Ok(shared("My Guild")));
    assert_eq!(cache.cache_guild(3, Ok("Other".to_string())), Ok(shared("My Guild")));
    assert_eq!(cache.cache_guild(3, Err(())), Ok(shared("My Guild")));
}

#[test]
fn guilds_and_channels_are_cached_apart() {
    let mut cache = LocationCache::new();
    assert_eq!(cache.get_and_cache_guild(7), Lookup::Fetch);
    assert_eq!(cache.cache_guild(7, Ok("My Guild".to_string())), Ok(shared("My Guild")));
    assert_eq!(cache.get_and_cache_location(7), Lookup::Fetch);
}

#[test]
fn each_id_is_fetched_once_however_many_ask() {
    let mut cache = LocationCache::new();
    let mut fetches = 0;
    for _ in 0..5 {
        if cache.get_and_cache_location(7) == Lookup::Fetch {
            fetches += 1;
        }
    }
    assert_eq!(fetches, 1);
    cache.cache_location(7, None, general()).unwrap();
    for _ in 0..5 {
        if cache.get_and_cache_location(7) == Lookup::Fetch {
            fetches += 1;
        }
    }
    assert_eq!(fetches, 1);
}

fn run(
    cache: &mut LocationCache,
    channel_id: u64,
    guild_id: Option<u64>,
    guild: Result<String, ()>,
    channel: Result<Channel, ()>,
) -> (Result<Location, ()>, Vec<String>) {
    let mut asked = Vec::new();
    let mut demand = cache.resolve(Resolution::new(channel_id, guild_id), Fetched::Nothing);
    loop {
        demand = match demand {
            Demand::Done(location) => return (location, asked),
            Demand::Wait(_) => {
                asked.push("wait".to_string());
                return (Err(()), asked);
            }
            Demand::FetchGuild(resolution, id) => {
                asked.push(format!("guild {}", id));
                cache.resolve(resolution, Fetched::Guild(guild.clone()))
            }
            Demand::FetchChannel(resolution, id) => {
                asked.push(format!("channel {}", id));
                cache.resolve(resolution, Fetched::Channel(channel.clone()))
            }
        };
    }
}

#[test]
fn resolution_fetches_the_guild_and_then_the_channel() {
    let mut cache = LocationCache::new();
    let (location, asked) = run(&mut cache, 7, Some(3), Ok("My Guild".to_string()), general());
    assert_eq!(
        location,
        Ok(Location { guild_name: Some(shared("My Guild")), channel_name: "general".to_string() })
    );
    assert_eq!(asked, vec!["guild 3".to_string(), "channel 7".to_string()]);
}

#[test]
fn resolution_outside_a_guild_fetches_the_channel_alone() {
    let mut cache = LocationCache::new();
    let (location, asked) = run(&mut cache, 7, None, Err(()), general());
    assert_eq!(location, Ok(Location { guild_name: None, channel_name: "general".to_string() }));
    assert_eq!(asked, vec!["channel 7".to_string()]);
}

#[test]
fn resolution_of_a_known_channel_fetches_nothing() {
    let mut cache = LocationCache::new();
    let first = run(&mut cache, 7, Some(3), Ok("My Guild".to_string()), general());
    let (location, asked) = run(&mut cache, 7, Some(3), Err(()), Err(()));
    assert_eq!(location, first.0);
    assert!(asked.is_empty());
}

#[test]
fn channels_of_one_guild_fetch_its_name_once() {
    let mut cache = LocationCache::new();
    let (first, _) = run(&mut cache, 7, Some(3), Ok("My Guild".to_string()), general());
    let (second, asked) =
        run(&mut cache, 8, Some(3), Err(()), Ok(Channel::Guild("random".to_string())));
    assert_eq!(asked, vec!["channel 8".to_string()]);
    assert_eq!(
        second,
        Ok(Location { guild_name: Some(shared("My Guild")), channel_name: "random".to_string() })
    );
    assert!(Arc::ptr_eq(
        first.unwrap().guild_name.as_ref().unwrap(),
        second.unwrap().guild_name.as_ref().unwrap()
    ));
}

#[test]
fn resolution_fails_when_the_guild_cannot_be_fetched() {
    let mut cache = LocationCache::new();
    let (location, asked) = run(&mut cache, 7, Some(3), Err(()), general());
    assert_eq!(location, Err(()));
    assert_eq!(asked, vec!["guild 3".to_string(), "channel 7".to_string()]);
    let (again, asked) = run(&mut cache, 7, Some(3), Ok("My Guild".to_string()), general());
    assert_eq!(asked, vec!["guild 3".to_string(), "channel 7".to_string()]);
    assert!(again.is_ok());
}

#[test]
fn resolution_fails_when_the_channel_cannot_be_fetched() {
    let mut cache = LocationCache::new();
    let (location, asked) = run(&mut cache, 7, Some(3), Ok("My Guild".to_string()), Err(()));
    assert_eq!(location, Err(()));
    assert_eq!(asked, vec!["guild 3".to_string(), "channel 7".to_string()]);
    let (again, asked) = run(&mut cache, 7, Some(3), Err(()), general());
    assert_eq!(asked, vec!["channel 7".to_string()]);
    assert_eq!(
        again,
        Ok(Location { guild_name: Some(shared("My Guild")), channel_name: "general".to_string() })
    );
}

#[test]
fn resolution_waits_for_a_channel_in_flight() {
    let mut cache = LocationCache::new();
    let first = cache.resolve(Resolution::new(7, None), Fetched::Nothing);
    let first = match first {
        Demand::FetchChannel(resolution, 7) => resolution,
        _ => panic!("no fetch"),
    };
    let second = match cache.resolve(Resolution::new(7, None), Fetched::Nothing) {
        Demand::Wait(resolution) => resolution,
        _ => panic!("no wait"),
    };
    let second = match cache.resolve(second, Fetched::Nothing) {
        Demand::Wait(resolution) => resolution,
        _ => panic!("no wait"),
    };
    let done = cache.resolve(first, Fetched::Channel(general()));
    let expected = Location { guild_name: None, channel_name: "general".to_string() };
    assert!(matches!(done, Demand::Done(Ok(ref location)) if *location == expected));
    let done = cache.resolve(second, Fetched::Nothing);
    assert!(matches!(done, Demand::Done(Ok(ref location)) if *location == expected));
}

#[test]
fn resolution_waits_for_a_guild_in_flight() {
    let mut cache = LocationCache::new();
    let first = match cache.resolve(Resolution::new(7, Some(3)), Fetched::Nothing) {
        Demand::FetchGuild(resolution, 3) => resolution,
        _ => panic!("no fetch"),
    };
    let second = match cache.resolve(Resolution::new(8, Some(3)), Fetched::Nothing) {
        Demand::Wait(resolution) => resolution,
        _ => panic!("no wait"),
    };
    assert_eq!(cache.get_and_cache_location(8), Lookup::Wait);
    let first = match cache.resolve(first, Fetched::Guild(Ok("My Guild".to_string()))) {
        Demand::FetchChannel(resolution, 7) => resolution,
        _ => panic!("no fetch"),
    };
    let second = match cache.resolve(second, Fetched::Nothing) {
        Demand::FetchChannel(resolution, 8) => resolution,
        _ => panic!("no fetch"),
    };
    let one = cache.resolve(first, Fetched::Channel(general()));
    let two = cache.resolve(second, Fetched::Channel(Ok(Channel::Guild("random".to_string()))));
    assert!(matches!(one, Demand::Done(Ok(ref location)) if location.to_string() == "My Guild > general"));
    assert!(matches!(two, Demand::Done(Ok(ref location)) if location.to_string() == "My Guild > random"));
}

#[test]
fn resolution_takes_a_wrong_answer_for_a_failure() {
    let mut cache = LocationCache::new();
    let waiting = match cache.resolve(Resolution::new(7, None), Fetched::Nothing) {
        Demand::FetchChannel(resolution, 7) => resolution,
        _ => panic!("no fetch"),
    };
    let done = cache.resolve(waiting, Fetched::Guild(Ok("My Guild".to_string())));
    assert!(matches!(done, Demand::Done(Err(()))));
    assert_eq!(cache.get_and_cache_location(7), Lookup::Fetch);
}
