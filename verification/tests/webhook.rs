use rns::discord::Profile;
use rns::model::{Message, User};
use rns::webhook::{Embed, EmbedField, Webhook, WebhookPayload, EMBED_COLOUR, NO_CONTENT, VERSION};

fn finder() -> Profile {
    Profile::new("melon".to_string(), "0042".to_string(), Some("abc".to_string()), "123".to_string())
}

fn message(guild_id: Option<u64>) -> Message {
    Message {
        id: 900,
        channel_id: 77,
        guild_id,
        author: User { name: "bob".to_string(), discriminator: 7 },
        content: "discord.gift/Ab3dEf6hIjKlMnO2".to_string(),
    }
}

fn embed(link: &str, timestamp: &str) -> Embed {
    Embed {
        author_name: "melon#0042".to_string(),
        author_icon_url: "https://cdn.discordapp.com/avatars/123/abc.webp".to_string(),
        title: "Yay! Claimed a Nitro!".to_string(),
        description: "o(»ω«)o Congratulations! I'm so proud of you!\nMaybe star me on [GitHub](https://github.com/Melonai/rust-nitro-sniper)? (ﾉ´ヮ´)ﾉ*:･ﾟ✧".to_string(),
        fields: vec![
            EmbedField { name: "Nitro sent by:".to_string(), value: "bob#7".to_string(), inline: false },
            EmbedField { name: "Message:".to_string(), value: link.to_string(), inline: false },
        ],
        footer_icon_url: "https://i.imgur.com/CxZOLY4.png".to_string(),
        footer_text: "RNS 0.1.0".to_string(),
        timestamp: timestamp.to_string(),
        colour: 5973197,
    }
}

#[test]
fn constants_of_the_notification() {
    assert_eq!(VERSION, "0.1.0");
    assert_eq!(NO_CONTENT, 204);
    assert_eq!(EMBED_COLOUR, 5973197);
}

#[test]
fn webhook_keeps_its_address() {
    assert_eq!(Webhook::new("https://example.test/hook".to_string()).url, "https://example.test/hook");
}

#[test]
fn default_payload_has_no_embeds() {
    assert_eq!(
        WebhookPayload::default(),
        WebhookPayload {
            username: "RNS".to_string(),
            avatar_url: "https://i.imgur.com/CxZOLY4.png".to_string(),
            embeds: Vec::new(),
        }
    );
}

#[test]
fn payload_names_the_claimant_and_links_the_message() {
    let payload =
        WebhookPayload::new_at(&message(Some(5)), &finder(), "2020-10-28T09:05:03+01:00".to_string());
    assert_eq!(
        payload,
        WebhookPayload {
            username: "RNS".to_string(),
            avatar_url: "https://i.imgur.com/CxZOLY4.png".to_string(),
            embeds: vec![embed(
                "[Posted here!](https://discordapp.com/channels/5/77/900)",
                "2020-10-28T09:05:03+01:00"
            )],
        }
    );
}

#[test]
fn payload_links_a_direct_message_under_me() {
    let payload = WebhookPayload::new_at(&message(None), &finder(), "now".to_string());
    assert_eq!(
        payload.embeds,
        vec![embed("[Posted here!](https://discordapp.com/channels/@me/77/900)", "now")]
    );
}

#[test]
fn payload_links_the_largest_ids_in_full() {
    let mut sent = message(Some(u64::MAX));
    sent.id = u64::MAX;
    sent.channel_id = 0;
    sent.author.discriminator = 1234;
    let payload = WebhookPayload::new_at(&sent, &finder(), "now".to_string());
    assert_eq!(
        payload.embeds[0].fields[1].value,
        "[Posted here!](https://discordapp.com/channels/18446744073709551615/0/18446744073709551615)"
    );
    assert_eq!(payload.embeds[0].fields[0].value, "bob#1234");
}

#[test]
fn payload_of_a_claimant_without_avatar_shows_the_stock_picture() {
    let plain = Profile::new("melon".to_string(), "0042".to_string(), None, "123".to_string());
    let payload = WebhookPayload::new_at(&message(None), &plain, "now".to_string());
    assert_eq!(
        payload.embeds[0].author_icon_url,
        "https://discordapp.com/assets/6debd47ed13483642cf09e832ed0bc1b.png"
    );
}

#[test]
fn payload_made_now_is_dated_with_the_local_time() {
    let payload = WebhookPayload::new(&message(Some(5)), &finder());
    assert_eq!(payload.embeds.len(), 1);
    let stamp = payload.embeds[0].timestamp.clone();
    let parsed = chrono::DateTime::parse_from_rfc3339(&stamp);
    assert!(parsed.is_ok(), "{}", stamp);
    let age = chrono::Local::now().signed_duration_since(parsed.unwrap());
    assert!(age.num_seconds().abs() < 60);
    assert_eq!(
        payload.embeds[0],
        embed("[Posted here!](https://discordapp.com/channels/5/77/900)", &stamp)
    );
}

#[test]
fn only_no_content_is_a_delivery() {
    assert_eq!(Webhook::delivered(Some(204)), Ok(()));
    assert_eq!(Webhook::delivered(Some(200)), Err(()));
    assert_eq!(Webhook::delivered(Some(404)), Err(()));
    assert_eq!(Webhook::delivered(Some(0)), Err(()));
    assert_eq!(Webhook::delivered(None), Err(()));
}

#[test]
fn send_gives_the_post_to_make() {
    let webhook = Webhook::new("https://example.test/hook".to_string());
    let post = webhook.send(&message(Some(5)), &finder());
    assert_eq!(post.url, "https://example.test/hook");
    assert_eq!(post.payload.username, "RNS");
    assert_eq!(post.payload.embeds.len(), 1);
    let stamp = post.payload.embeds[0].timestamp.clone();
    assert!(chrono::DateTime::parse_from_rfc3339(&stamp).is_ok());
    assert_eq!(
        post.payload.embeds[0],
        embed("[Posted here!](https://discordapp.com/channels/5/77/900)", &stamp)
    );
}
