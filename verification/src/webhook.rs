//! Telling a third party of a claim that succeeded.

use crate::discord::{profile_face, profile_tag, Profile, ProfileView};
use crate::model::{Message, MessageView};
use crate::text::{decimal, decimal_string};
use vstd::prelude::*;
use vstd::string::*;

verus! {

/// The local date and time from `chrono::Local::now`, written by
/// `DateTime::to_rfc3339`. Nothing is claimed of the text.
#[verifier::external_body]
fn local_timestamp() -> (stamp: String) {
    chrono::Local::now().to_rfc3339()
}

/// The address that notifications are posted to.
#[derive(Debug, PartialEq, Eq)]
pub struct Webhook {
    pub url: String,
}

/// A titled line of an embed.
#[derive(Debug, PartialEq, Eq)]
pub struct EmbedField {
    pub name: String,
    pub value: String,
    pub inline: bool,
}

/// A field as plain values.
pub struct EmbedFieldView {
    pub name: Seq<char>,
    pub value: Seq<char>,
    pub inline: bool,
}

impl View for EmbedField {
    type V = EmbedFieldView;

    open spec fn view(&self) -> EmbedFieldView {
        EmbedFieldView { name: self.name@, value: self.value@, inline: self.inline }
    }
}

/// The rich block of a notification.
#[derive(Debug, PartialEq, Eq)]
pub struct Embed {
    pub author_name: String,
    pub author_icon_url: String,
    pub title: String,
    pub description: String,
    pub fields: Vec<EmbedField>,
    pub footer_icon_url: String,
    pub footer_text: String,
    pub timestamp: String,
    pub colour: u32,
}

/// An embed as plain values.
pub struct EmbedView {
    pub author_name: Seq<char>,
    pub author_icon_url: Seq<char>,
    pub title: Seq<char>,
    pub description: Seq<char>,
    pub fields: Seq<EmbedFieldView>,
    pub footer_icon_url: Seq<char>,
    pub footer_text: Seq<char>,
    pub timestamp: Seq<char>,
    pub colour: u32,
}

impl View for Embed {
    type V = EmbedView;

    open spec fn view(&self) -> EmbedView {
        EmbedView {
            author_name: self.author_name@,
            author_icon_url: self.author_icon_url@,
            title: self.title@,
            description: self.description@,
            fields: self.fields@.map_values(|field: EmbedField| field@),
            footer_icon_url: self.footer_icon_url@,
            footer_text: self.footer_text@,
            timestamp: self.timestamp@,
            colour: self.colour,
        }
    }
}

/// What is posted to the notification address.
#[derive(Debug, PartialEq, Eq)]
pub struct WebhookPayload {
    pub username: String,
    pub avatar_url: String,
    pub embeds: Vec<Embed>,
}

/// A payload as plain values.
pub struct WebhookPayloadView {
    pub username: Seq<char>,
    pub avatar_url: Seq<char>,
    pub embeds: Seq<EmbedView>,
}

impl View for WebhookPayload {
    type V = WebhookPayloadView;

    open spec fn view(&self) -> WebhookPayloadView {
        WebhookPayloadView {
            username: self.username@,
            avatar_url: self.avatar_url@,
            embeds: self.embeds@.map_values(|embed: Embed| embed@),
        }
    }
}

/// A notification to post: where to, and what.
#[derive(Debug, PartialEq, Eq)]
pub struct Post {
    pub url: String,
    pub payload: WebhookPayload,
}

/// The version that notifications are signed with.
pub const VERSION: &'static str = "0.1.0";

/// The status that tells a notification was taken.
pub const NO_CONTENT: u16 = 204;

/// The colour of the embed's edge.
pub const EMBED_COLOUR: u32 = 5973197;

/// The picture that notifications are sent under.
pub open spec fn rns_avatar() -> Seq<char> {
    "https://i.imgur.com/CxZOLY4.png"@
}

/// Who sent the identifier: name and discriminator as they came.
pub open spec fn sender_text(message: MessageView) -> Seq<char> {
    message.author.name + "#"@ + decimal(message.author.discriminator as nat)
}

/// The link to the message that held the identifier. A message outside any
/// guild is found under `@me`.
pub open spec fn message_link(message: MessageView) -> Seq<char> {
    let place = match message.guild_id {
        Some(guild) => decimal(guild as nat),
        None => "@me"@,
    };
    "[Posted here!](https://discordapp.com/channels/"@ + place + "/"@ + decimal(
        message.channel_id as nat,
    ) + "/"@ + decimal(message.id as nat) + ")"@
}

/// The embed that tells of a claim: who claimed, who sent the identifier and
/// where the message is.
pub open spec fn claim_embed(
    message: MessageView,
    finder: ProfileView,
    timestamp: Seq<char>,
) -> EmbedView {
    EmbedView {
        author_name: profile_tag(finder),
        author_icon_url: profile_face(finder),
        title: "Yay! Claimed a Nitro!"@,
        description: "o(»ω«)o Congratulations! I'm so proud of you!\nMaybe star me on [GitHub](https://github.com/Melonai/rust-nitro-sniper)? (ﾉ´ヮ´)ﾉ*:･ﾟ✧"@,
        fields: seq![
            EmbedFieldView { name: "Nitro sent by:"@, value: sender_text(message), inline: false },
            EmbedFieldView { name: "Message:"@, value: message_link(message), inline: false },
        ],
        footer_icon_url: rns_avatar(),
        footer_text: "RNS "@ + VERSION@,
        timestamp,
        colour: EMBED_COLOUR,
    }
}

/// The payload that tells of a claim.
pub open spec fn claim_payload(
    message: MessageView,
    finder: ProfileView,
    timestamp: Seq<char>,
) -> WebhookPayloadView {
    WebhookPayloadView {
        username: "RNS"@,
        avatar_url: rns_avatar(),
        embeds: seq![claim_embed(message, finder, timestamp)],
    }
}

impl Default for WebhookPayload {
    /// A payload without embeds.
    fn default() -> (payload: WebhookPayload)
        ensures
            payload@ == (WebhookPayloadView {
                username: "RNS"@,
                avatar_url: rns_avatar(),
                embeds: Seq::empty(),
            }),
    {
        let payload = WebhookPayload {
            username: String::from_str("RNS"),
            avatar_url: WebhookPayload::get_rns_avatar(),
            embeds: Vec::new(),
        };
        assert(payload.embeds@.map_values(|embed: Embed| embed@) =~= Seq::empty());
        payload
    }
}

impl WebhookPayload {
    fn get_rns_avatar() -> (address: String)
        ensures
            address@ == rns_avatar(),
    {
        String::from_str("https://i.imgur.com/CxZOLY4.png")
    }

    /// The payload that tells of the claim of the identifier in `message`
    /// by `finder`, dated `timestamp`.
    pub fn new_at(message: &Message, finder: &Profile, timestamp: String) -> (payload:
        WebhookPayload)
        ensures
            payload@ == claim_payload(message@, finder@, timestamp@),
    {
        let mut sender = message.author.name.clone();
        sender.append("#");
        sender.append(decimal_string(message.author.discriminator as u128).as_str());

        let mut link = String::from_str("[Posted here!](https://discordapp.com/channels/");
        match message.guild_id {
            Some(guild) => link.append(decimal_string(guild as u128).as_str()),
            None => link.append("@me"),
        }
        link.append("/");
        link.append(decimal_string(message.channel_id as u128).as_str());
        link.append("/");
        link.append(decimal_string(message.id as u128).as_str());
        link.append(")");

        let mut fields: Vec<EmbedField> = Vec::new();
        fields.push(
            EmbedField { name: String::from_str("Nitro sent by:"), value: sender, inline: false },
        );
        fields.push(EmbedField { name: String::from_str("Message:"), value: link, inline: false });

        let mut footer_text = String::from_str("RNS ");
        footer_text.append(VERSION);

        let embed = Embed {
            author_name: finder.to_string(),
            author_icon_url: finder.face(),
            title: String::from_str("Yay! Claimed a Nitro!"),
            description: String::from_str(
                "o(»ω«)o Congratulations! I'm so proud of you!\nMaybe star me on [GitHub](https://github.com/Melonai/rust-nitro-sniper)? (ﾉ´ヮ´)ﾉ*:･ﾟ✧",
            ),
            fields,
            footer_icon_url: WebhookPayload::get_rns_avatar(),
            footer_text,
            timestamp,
            colour: EMBED_COLOUR,
        };
        assert(embed@.fields =~= claim_embed(message@, finder@, timestamp@).fields);
        let mut embeds: Vec<Embed> = Vec::new();
        embeds.push(embed);
        let payload = WebhookPayload {
            username: String::from_str("RNS"),
            avatar_url: WebhookPayload::get_rns_avatar(),
            embeds,
        };
        assert(payload@.embeds =~= seq![claim_embed(message@, finder@, timestamp@)]);
        payload
    }

    /// The payload that tells of the claim of the identifier in `message`
    /// by `finder`, dated now.
    pub fn new(message: &Message, finder: &Profile) -> (payload: WebhookPayload)
        ensures
            exists|timestamp: Seq<char>|
                payload@ == #[trigger] claim_payload(message@, finder@, timestamp),
    {
        WebhookPayload::new_at(message, finder, local_timestamp())
    }
}

impl Webhook {
    /// The notification address `url`.
    pub fn new(url: String) -> (webhook: Webhook)
        ensures
            webhook.url == url,
    {
        Webhook { url }
    }

    /// The notification of the claim of the identifier in `message` by
    /// `finder`: the post to make to this address, dated now.
    pub fn send(&self, message: &Message, finder: &Profile) -> (post: Post)
        ensures
            post.url@ == self.url@,
            exists|timestamp: Seq<char>|
                post.payload@ == #[trigger] claim_payload(message@, finder@, timestamp),
    {
        Post { url: self.url.clone(), payload: WebhookPayload::new(message, finder) }
    }

    /// Whether a notification was taken: only the status 204 says so. No
    /// reply at all, or any other status, is a failure.
    pub fn delivered(reply: Option<u16>) -> (outcome: Result<(), ()>)
        ensures
            outcome is Ok <==> reply == Some(NO_CONTENT),
    {
        match reply {
            Some(status) => if status == NO_CONTENT {
                Ok(())
            } else {
                Err(())
            },
            None => Err(()),
        }
    }
}

} // verus!
