use rns::cache::{Channel, LocationCache, Lookup};
use rns::config::Config;
use rns::discord::{ClaimOutcome, Handler, HandlerInfo, MessageAction};
use rns::logging::Span;
use rns::model::{CurrentUser, Message, Ready, Reply, User};
use rns::util::user_to_tag;
use rns::webhook::{Webhook, WebhookPayload};

fn account(name: &str, id: u64) -> CurrentUser {
    CurrentUser { name: name.to_string(), discriminator: 1, avatar: None, id }
}

fn message(content: &str, guild_id: Option<u64>) -> Message {
    Message {
        id: 900,
        channel_id: 77,
        guild_id,
        author: User { name: "bob".to_string(), discriminator: 7 },
        content: content.to_string(),
    }
}

fn texts(lines: &Vec<Vec<Span>>) -> Vec<String> {
    lines.iter().map(|line| line.iter().map(|span| span.text.as_str()).collect()).collect()
}

#[test]
fn two_workers_see_one_identifier_and_one_claims() {
    let config = Config::new(
        "token-a".to_string(),
        true,
        vec!["token-b".to_string()],
        String::new(),
        Vec::new(),
    );
    let mut info = HandlerInfo::new(config, 2);
    let mut worker_a = Handler::new();
    let mut worker_b = Handler::new();
    worker_a.ready(&mut info, Ready { user: account("a", 1), guilds: 2 });
    worker_b.ready(&mut info, Ready { user: account("b", 2), guilds: 2 });

    let seen = message("free stuff discord.gift/Ab3dEf6hIjKlMnO2", Some(5));
    let mut claims = 0;
    for _ in 0..3 {
        for worker in [&mut worker_a, &mut worker_b] {
            if let Ok(MessageAction::Claim(attempt)) = worker.message(&mut info, &seen) {
                assert_eq!(attempt.gift_code, "Ab3dEf6hIjKlMnO2");
                claims += 1;
            }
        }
    }
    assert_eq!(claims, 1);
}

#[test]
fn second_worker_makes_no_claim_and_no_block() {
    let config = Config::new("token-a".to_string(), true, Vec::new(), String::new(), Vec::new());
    let mut info = HandlerInfo::new(config, 2);
    let mut worker_a = Handler::new();
    let mut worker_b = Handler::new();
    worker_a.ready(&mut info, Ready { user: account("a", 1), guilds: 2 });
    worker_b.ready(&mut info, Ready { user: account("b", 2), guilds: 2 });
    let seen = message("discord.gift/Ab3dEf6hIjKlMnO2", None);
    assert!(matches!(worker_b.message(&mut info, &seen), Ok(MessageAction::Claim(_))));
    assert!(matches!(worker_a.message(&mut info, &seen), Ok(MessageAction::Ignore)));
}

#[test]
fn blacklisted_guild_leads_to_nothing() {
    let config = Config::new("token-a".to_string(), true, Vec::new(), String::new(), vec![5, 6]);
    let mut info = HandlerInfo::new(config, 1);
    let mut worker = Handler::new();
    worker.ready(&mut info, Ready { user: account("a", 1), guilds: 2 });

    let hidden = message("discord.gift/Ab3dEf6hIjKlMnO2", Some(6));
    assert!(matches!(worker.message(&mut info, &hidden), Ok(MessageAction::Ignore)));
    assert!(!info.seen_codes().has_seen(&"Ab3dEf6hIjKlMnO2".to_string()));

    let open = message("discord.gift/Ab3dEf6hIjKlMnO2", Some(7));
    assert!(matches!(worker.message(&mut info, &open), Ok(MessageAction::Claim(_))));
}

#[test]
fn successful_claim_is_notified_once_and_flushed() {
    let config = Config::new(
        "token-a".to_string(),
        true,
        Vec::new(),
        "https://example.test/hook".to_string(),
        Vec::new(),
    );
    let mut info = HandlerInfo::new(config, 1);
    let mut cache = LocationCache::new();
    let mut worker = Handler::new();
    worker.ready(&mut info, Ready { user: account("melon", 123), guilds: 2 });

    let seen = message("discord.gift/Ab3dEf6hIjKlMnO2", Some(5));
    let mut attempt = match worker.message(&mut info, &seen) {
        Ok(MessageAction::Claim(attempt)) => attempt,
        _ => panic!("no claim"),
    };

    let answer = worker.on_reply(&info, Some(Reply { status: 200, body: Some(Vec::new()) }), &mut attempt.log);
    assert_eq!(answer.outcome, ClaimOutcome::Success);
    let mut posts = Vec::new();
    if let Some(webhook) = answer.notify {
        let payload = WebhookPayload::new_at(&seen, worker.profile().unwrap(), "now".to_string());
        posts.push((webhook.url.clone(), payload));
        worker.on_notified(Webhook::delivered(Some(500)), &mut attempt.log);
    }
    assert_eq!(posts.len(), 1);
    assert_eq!(posts[0].0, "https://example.test/hook");
    assert_eq!(posts[0].1.embeds[0].author_name, "melon#0001");
    assert_eq!(
        posts[0].1.embeds[0].fields[1].value,
        "[Posted here!](https://discordapp.com/channels/5/77/900)"
    );

    attempt.log.freeze_at(8);
    assert_eq!(cache.get_and_cache_location(seen.channel_id), Lookup::Fetch);
    assert_eq!(cache.get_and_cache_guild(5), Lookup::Fetch);
    let guild = cache.cache_guild(5, Ok("My Guild".to_string()));
    let place = cache.cache_location(seen.channel_id, Some(guild), Ok(Channel::Guild("general".to_string())));
    let lines = attempt.log.send_at(
        place,
        user_to_tag(&seen.author),
        rns::logging::ClockTime { hour: 9, minute: 5, second: 3 },
        700,
    );
    assert_eq!(
        texts(&lines),
        vec![
            "\n09:05:03 › (melon#0001) [My Guild > general > bob#0007]".to_string(),
            " (+) (°■°)! Claiming code: Ab3dEf6hIjKlMnO2!".to_string(),
            " (+) o(»ω«)o Yay! Claimed code!".to_string(),
            " (+) (o·ω·o) Sending webhook message!".to_string(),
            " (!) ┐(¯ω¯;)┌ Failed sending webhook message".to_string(),
            "Finished in: 8ms".to_string(),
        ]
    );
}

#[test]
fn failed_claim_is_flushed_without_notification() {
    let config = Config::new(
        "token-a".to_string(),
        true,
        Vec::new(),
        "https://example.test/hook".to_string(),
        Vec::new(),
    );
    let mut info = HandlerInfo::new(config, 1);
    let mut cache = LocationCache::new();
    let mut worker = Handler::new();
    worker.ready(&mut info, Ready { user: account("melon", 123), guilds: 2 });
    let seen = message("discord.gift/Ab3dEf6hIjKlMnO2", None);
    let mut attempt = match worker.message(&mut info, &seen) {
        Ok(MessageAction::Claim(attempt)) => attempt,
        _ => panic!("no claim"),
    };
    let answer = worker.on_reply(
        &info,
        Some(Reply { status: 418, body: Some(b"short and stout".to_vec()) }),
        &mut attempt.log,
    );
    assert_eq!(
        answer.outcome,
        ClaimOutcome::Unknown { status: 418, body: Some("short and stout".to_string()) }
    );
    assert_eq!(answer.notify, None);
    assert_eq!(cache.get_and_cache_location(seen.channel_id), Lookup::Fetch);
    let place = cache.cache_location(seen.channel_id, None, Err(()));
    let lines = attempt.log.send_at(
        place,
        user_to_tag(&seen.author),
        rns::logging::ClockTime { hour: 23, minute: 0, second: 59 },
        1500,
    );
    assert_eq!(
        texts(&lines),
        vec![
            "\n23:00:59 › (melon#0001) [? > bob#0007]".to_string(),
            " (+) (°■°)! Claiming code: Ab3dEf6hIjKlMnO2!".to_string(),
            " (!) ┐(¯ω¯;)┌ Received unknown response... (418 I'm a teapot)".to_string(),
            " (!) -> ...with this body: short and stout".to_string(),
            " (!) (x_x) Failed requesting location for event.".to_string(),
            "Finished in: 1500ms".to_string(),
        ]
    );
    assert_eq!(cache.get_and_cache_location(seen.channel_id), Lookup::Fetch);
}
