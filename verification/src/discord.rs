//! Accounts, their sessions, and the claim each first sighting triggers.

use crate::config::{blacklisted, configured_webhook, Config, ConfigView};
use crate::gate::{admits, after, IdentifierGate};
use crate::logging::{
    emphasis, notices_view, plain_notice, plain_span, Level, LogBlock, LogBlockView,
    LogMessageView, Notice, NoticeView, Span,
};
use crate::matcher::{get_gift_code, regex_capture, sanitized, selected, PatternError, GIFT_PATTERN};
use crate::model::{
    bytes_of, CurrentUser, Header, HeaderView, Message, MessageView, Method, Ready, Reply, Request,
    RequestView,
};
use crate::webhook::Webhook;
use crate::text::{decimal, decimal_string, text_of, zero_padded, zero_padded_string};
use vstd::prelude::*;
use vstd::std_specs::convert::FromSpecImpl;
use vstd::string::*;
use vstd::utf8::{decode_utf8, valid_utf8};

verus! {

/// The account behind a credential, as shown to the operator.
#[derive(Debug, PartialEq, Eq)]
pub struct Profile {
    username: String,
    discriminator: String,
    avatar: Option<String>,
    id: String,
}

/// A profile as plain text.
pub struct ProfileView {
    pub username: Seq<char>,
    pub discriminator: Seq<char>,
    pub avatar: Option<Seq<char>>,
    pub id: Seq<char>,
}

/// The profile that a reported account gives: the discriminator in four
/// digits, the id in decimal.
pub open spec fn profile_of(user: CurrentUser) -> ProfileView {
    ProfileView {
        username: user.name@,
        discriminator: zero_padded(decimal(user.discriminator as nat), 4),
        avatar: text_of(user.avatar),
        id: decimal(user.id as nat),
    }
}

/// `name#discriminator`, the form in which an account is named.
pub open spec fn profile_tag(profile: ProfileView) -> Seq<char> {
    profile.username + "#"@ + profile.discriminator
}

/// The address of the account's picture: its own where it has one, else the
/// stock picture.
pub open spec fn profile_face(profile: ProfileView) -> Seq<char> {
    match profile.avatar {
        Some(avatar) => "https://cdn.discordapp.com/avatars/"@ + profile.id + "/"@ + avatar
            + ".webp"@,
        None => "https://discordapp.com/assets/6debd47ed13483642cf09e832ed0bc1b.png"@,
    }
}

impl View for Profile {
    type V = ProfileView;

    closed spec fn view(&self) -> ProfileView {
        ProfileView {
            username: self.username@,
            discriminator: self.discriminator@,
            avatar: text_of(self.avatar),
            id: self.id@,
        }
    }
}

impl Clone for Profile {
    fn clone(&self) -> (copy: Profile)
        ensures
            copy@ == self@,
    {
        Profile {
            username: self.username.clone(),
            discriminator: self.discriminator.clone(),
            avatar: self.get_avatar(),
            id: self.id.clone(),
        }
    }
}

impl Profile {
    /// The profile with the given parts.
    pub fn new(username: String, discriminator: String, avatar: Option<String>, id: String) -> (profile:
        Profile)
        ensures
            profile@ == (ProfileView {
                username: username@,
                discriminator: discriminator@,
                avatar: text_of(avatar),
                id: id@,
            }),
    {
        Profile { username, discriminator, avatar, id }
    }

    fn get_avatar(&self) -> (avatar: Option<String>)
        ensures
            text_of(avatar) == self@.avatar,
    {
        match &self.avatar {
            Some(avatar) => Some(avatar.clone()),
            None => None,
        }
    }

    /// The address of the account's picture.
    pub fn face(&self) -> (address: String)
        ensures
            address@ == profile_face(self@),
    {
        match self.get_avatar() {
            Some(avatar) => {
                let mut address = String::from_str("https://cdn.discordapp.com/avatars/");
                address.append(self.id.as_str());
                address.append("/");
                address.append(avatar.as_str());
                address.append(".webp");
                address
            },
            None => String::from_str(
                "https://discordapp.com/assets/6debd47ed13483642cf09e832ed0bc1b.png",
            ),
        }
    }

    /// The account's name and discriminator, joined by `#`.
    pub fn to_string(&self) -> (tag: String)
        ensures
            tag@ == profile_tag(self@),
    {
        let mut tag = self.username.clone();
        tag.append("#");
        tag.append(self.discriminator.as_str());
        tag
    }
}

impl From<CurrentUser> for Profile {
    fn from(user: CurrentUser) -> (profile: Profile)
        ensures
            profile@ == profile_of(user),
    {
        Profile {
            username: user.name,
            discriminator: zero_padded_string(user.discriminator as u128, 4),
            avatar: user.avatar,
            id: decimal_string(user.id as u128),
        }
    }
}

impl FromSpecImpl<CurrentUser> for Profile {
    open spec fn obeys_from_spec() -> bool {
        false
    }

    open spec fn from_spec(user: CurrentUser) -> Profile {
        choose|profile: Profile| profile@ == profile_of(user)
    }
}

/// Why the main account's profile could not be had.
#[derive(Clone, Copy, Debug, PartialEq, Eq, Structural)]
pub enum ProfileError {
    /// The credential was refused.
    Unauthorized,
    /// Too many requests were made.
    RateLimited,
    /// No reply came.
    ConnectionError,
    /// Any other reply.
    Other,
}

/// What the operator is told when the profile could not be had.
pub open spec fn profile_error_notice(error: ProfileError) -> NoticeView {
    match error {
        ProfileError::Unauthorized => plain_notice(
            Level::Error,
            "┐(¯ω¯;)┌"@,
            "I couldn't verify your main token. Is it correct?"@,
        ),
        ProfileError::RateLimited => plain_notice(
            Level::Error,
            "(x_x)"@,
            "Your're rate-limited. Try again later..."@,
        ),
        ProfileError::ConnectionError => plain_notice(
            Level::Error,
            "┐(¯ω¯;)┌"@,
            "Requesting failed. Check your connection!"@,
        ),
        ProfileError::Other => plain_notice(
            Level::Error,
            "┐(¯ω¯;)┌"@,
            "Received unknown response for Discord..."@,
        ),
    }
}

impl ProfileError {
    /// What the operator is told before the run ends.
    pub fn handle(&self) -> (notice: Notice)
        ensures
            notice@ == profile_error_notice(*self),
    {
        match self {
            ProfileError::Unauthorized => Notice::plain(
                Level::Error,
                "┐(¯ω¯;)┌",
                String::from_str("I couldn't verify your main token. Is it correct?"),
            ),
            ProfileError::RateLimited => Notice::plain(
                Level::Error,
                "(x_x)",
                String::from_str("Your're rate-limited. Try again later..."),
            ),
            ProfileError::ConnectionError => Notice::plain(
                Level::Error,
                "┐(¯ω¯;)┌",
                String::from_str("Requesting failed. Check your connection!"),
            ),
            ProfileError::Other => Notice::plain(
                Level::Error,
                "┐(¯ω¯;)┌",
                String::from_str("Received unknown response for Discord..."),
            ),
        }
    }
}

/// The request that asks for the profile behind `token`.
pub open spec fn profile_request_of(token: Seq<char>) -> RequestView {
    RequestView {
        method: Method::Get,
        uri: "https://discordapp.com/api/v6/users/@me"@,
        headers: seq![HeaderView { name: "Authorization"@, value: token }],
    }
}

/// What a reply to the profile request gives: the body to read the profile
/// from when the status is 200 and the body could be read, else the error.
pub open spec fn profile_reply_of(reply: Option<Reply>) -> Result<Seq<u8>, ProfileError> {
    match reply {
        None => Err(ProfileError::ConnectionError),
        Some(answer) => if answer.status == 200 {
            match answer.body {
                Some(bytes) => Ok(bytes@),
                None => Err(ProfileError::Other),
            }
        } else if answer.status == 401 {
            Err(ProfileError::Unauthorized)
        } else if answer.status == 429 {
            Err(ProfileError::RateLimited)
        } else {
            Err(ProfileError::Other)
        },
    }
}

/// The request that asks for the profile behind `token`.
pub fn profile_request(token: &str) -> (request: Request)
    ensures
        request@ == profile_request_of(token@),
{
    let mut headers: Vec<Header> = Vec::new();
    headers.push(Header::new("Authorization", String::from_str(token)));
    let request = Request {
        method: Method::Get,
        uri: String::from_str("https://discordapp.com/api/v6/users/@me"),
        headers,
    };
    assert(request@.headers =~= profile_request_of(token@).headers);
    request
}

/// Reads the reply to the profile request; `None` stands for no reply.
pub fn profile_reply(reply: Option<Reply>) -> (body: Result<Vec<u8>, ProfileError>)
    ensures
        match body {
            Ok(bytes) => profile_reply_of(reply) == Ok::<Seq<u8>, ProfileError>(bytes@),
            Err(error) => profile_reply_of(reply) == Err::<Seq<u8>, ProfileError>(error),
        },
{
    match reply {
        None => Err(ProfileError::ConnectionError),
        Some(answer) => {
            if answer.status == 200 {
                match answer.body {
                    Some(bytes) => Ok(bytes),
                    None => Err(ProfileError::Other),
                }
            } else if answer.status == 401 {
                Err(ProfileError::Unauthorized)
            } else if answer.status == 429 {
                Err(ProfileError::RateLimited)
            } else {
                Err(ProfileError::Other)
            }
        },
    }
}

/// The phrase that `hyper::StatusCode::canonical_reason` has for a status.
pub uninterp spec fn canonical_reason(status: u16) -> Option<Seq<char>>;

/// Turns `status` into a `hyper::StatusCode` with `StatusCode::from_u16` and
/// asks `canonical_reason` for its phrase. A number that is no status code,
/// under 100 or over 999, has none.
#[verifier::external_body]
fn reason_phrase(status: u16) -> (reason: Option<String>)
    ensures
        text_of(reason) == canonical_reason(status),
        !(100 <= status < 1000) ==> reason is None,
{
    match hyper::StatusCode::from_u16(status) {
        Ok(code) => code.canonical_reason().map(|phrase| phrase.to_string()),
        Err(_) => None,
    }
}

/// How an attempt to claim an identifier ended.
#[derive(Debug, PartialEq, Eq)]
pub enum ClaimOutcome {
    /// The identifier was claimed.
    Success,
    /// Somebody else had claimed it.
    AlreadyRedeemed,
    /// There is no such identifier, or no longer.
    NotFound,
    /// The service failed.
    ServerError,
    /// Too many requests were made.
    RateLimited,
    /// A status with no known meaning, and the text of the body where it
    /// could be read and is text.
    Unknown { status: u16, body: Option<String> },
    /// No reply came.
    TransportFailure,
}

/// An outcome as plain values.
pub enum ClaimOutcomeView {
    Success,
    AlreadyRedeemed,
    NotFound,
    ServerError,
    RateLimited,
    Unknown { status: u16, body: Option<Seq<char>> },
    TransportFailure,
}

impl View for ClaimOutcome {
    type V = ClaimOutcomeView;

    open spec fn view(&self) -> ClaimOutcomeView {
        match *self {
            ClaimOutcome::Success => ClaimOutcomeView::Success,
            ClaimOutcome::AlreadyRedeemed => ClaimOutcomeView::AlreadyRedeemed,
            ClaimOutcome::NotFound => ClaimOutcomeView::NotFound,
            ClaimOutcome::ServerError => ClaimOutcomeView::ServerError,
            ClaimOutcome::RateLimited => ClaimOutcomeView::RateLimited,
            ClaimOutcome::Unknown { status, body } => ClaimOutcomeView::Unknown {
                status,
                body: text_of(body),
            },
            ClaimOutcome::TransportFailure => ClaimOutcomeView::TransportFailure,
        }
    }
}

/// The text of a body: what its bytes encode, where there are bytes and
/// they are valid UTF-8.
pub open spec fn body_text(body: Option<Seq<u8>>) -> Option<Seq<char>> {
    match body {
        Some(bytes) => if valid_utf8(bytes) {
            Some(decode_utf8(bytes))
        } else {
            None
        },
        None => None,
    }
}

/// The outcome that a reply stands for; `None` stands for no reply.
/// 200 is a success, 400 an identifier already claimed, 404 an unknown one,
/// 405 a failure of the service, 429 a rate limit. Every other status is
/// unknown and is kept with the text of the body.
pub open spec fn claim_outcome(reply: Option<Reply>) -> ClaimOutcomeView {
    match reply {
        None => ClaimOutcomeView::TransportFailure,
        Some(answer) => if answer.status == 200 {
            ClaimOutcomeView::Success
        } else if answer.status == 400 {
            ClaimOutcomeView::AlreadyRedeemed
        } else if answer.status == 404 {
            ClaimOutcomeView::NotFound
        } else if answer.status == 405 {
            ClaimOutcomeView::ServerError
        } else if answer.status == 429 {
            ClaimOutcomeView::RateLimited
        } else {
            ClaimOutcomeView::Unknown {
                status: answer.status,
                body: body_text(bytes_of(answer.body)),
            }
        },
    }
}

/// A message of a block that reports a success.
pub open spec fn success_message(kaomoji: Seq<char>, text: Seq<char>) -> LogMessageView {
    LogMessageView { kaomoji, text, level: Level::Info, is_success: true }
}

/// A message of a block at the given level.
pub open spec fn plain_message(level: Level, kaomoji: Seq<char>, text: Seq<char>) -> LogMessageView {
    LogMessageView { kaomoji, text, level, is_success: false }
}

/// The status of an unknown reply as it is shown: the number, and the
/// phrase that goes with it where there is one.
pub open spec fn status_text(status: u16, reason: Option<Seq<char>>) -> Seq<char> {
    match reason {
        Some(phrase) => decimal(status as nat) + " "@ + phrase,
        None => decimal(status as nat),
    }
}

/// What a block is told of an outcome, given the phrase that goes with the
/// status. An identifier that is gone or taken and a rate limit are
/// warnings, as is a request that got no reply; a failure of the service
/// and an unknown reply are errors.
pub open spec fn outcome_messages(
    outcome: ClaimOutcomeView,
    reason: Option<Seq<char>>,
) -> Seq<LogMessageView> {
    match outcome {
        ClaimOutcomeView::Success => seq![success_message("o(»ω«)o"@, "Yay! Claimed code!"@)],
        ClaimOutcomeView::ServerError => seq![
            plain_message(Level::Error, "(x_x)"@, "There was an error on Discord's side."@),
        ],
        ClaimOutcomeView::NotFound => seq![
            plain_message(Level::Warn, "(╥ω╥)"@, "Code was fake or expired."@),
        ],
        ClaimOutcomeView::AlreadyRedeemed => seq![
            plain_message(Level::Warn, "(╥ω╥)"@, "Code was already redeemed."@),
        ],
        ClaimOutcomeView::RateLimited => seq![
            plain_message(Level::Warn, "(x_x)"@, "We were rate-limited..."@),
        ],
        ClaimOutcomeView::Unknown { status, body } => seq![
            plain_message(
                Level::Error,
                "┐(¯ω¯;)┌"@,
                "Received unknown response... ("@ + status_text(status, reason) + ")"@,
            ),
            match body {
                Some(text) => plain_message(Level::Error, "->"@, "...with this body: "@ + text),
                None => plain_message(
                    Level::Error,
                    "->"@,
                    "...and couldn't parse the body of the response."@,
                ),
            },
        ],
        ClaimOutcomeView::TransportFailure => seq![
            plain_message(
                Level::Warn,
                "┐(¯ω¯;)┌"@,
                "Requesting failed. Check your connection!"@,
            ),
        ],
    }
}

/// The phrase that goes with an outcome: that of the status, for an unknown
/// reply.
pub open spec fn outcome_reason(outcome: ClaimOutcomeView) -> Option<Seq<char>> {
    match outcome {
        ClaimOutcomeView::Unknown { status, body } => canonical_reason(status),
        _ => None,
    }
}

/// The block with `messages` added at its end.
pub open spec fn with_messages(block: LogBlockView, messages: Seq<LogMessageView>) -> LogBlockView {
    LogBlockView { messages: block.messages + messages, ..block }
}

impl ClaimOutcome {
    /// The outcome that `reply` stands for; `None` stands for no reply.
    pub fn classify(reply: Option<Reply>) -> (outcome: ClaimOutcome)
        ensures
            outcome@ == claim_outcome(reply),
    {
        match reply {
            None => ClaimOutcome::TransportFailure,
            Some(answer) => {
                if answer.status == 200 {
                    ClaimOutcome::Success
                } else if answer.status == 400 {
                    ClaimOutcome::AlreadyRedeemed
                } else if answer.status == 404 {
                    ClaimOutcome::NotFound
                } else if answer.status == 405 {
                    ClaimOutcome::ServerError
                } else if answer.status == 429 {
                    ClaimOutcome::RateLimited
                } else {
                    let body = match answer.body {
                        Some(bytes) => match String::from_utf8(bytes) {
                            Ok(text) => Some(text),
                            Err(_) => None,
                        },
                        None => None,
                    };
                    ClaimOutcome::Unknown { status: answer.status, body }
                }
            },
        }
    }

    /// Whether the identifier was claimed. Nothing else leads to a
    /// notification.
    pub fn is_success(&self) -> (claimed: bool)
        ensures
            claimed == (self@ is Success),
    {
        match self {
            ClaimOutcome::Success => true,
            _ => false,
        }
    }

    /// Tells the block of the outcome, with `reason` as the phrase that goes
    /// with the status of an unknown reply.
    pub fn report_with(&self, reason: Option<String>, log: &mut LogBlock)
        ensures
            final(log)@ == with_messages(old(log)@, outcome_messages(self@, text_of(reason))),
    {
        match self {
            ClaimOutcome::Success => {
                log.add_message(
                    Level::Info,
                    "o(»ω«)o",
                    String::from_str("Yay! Claimed code!"),
                    true,
                );
            },
            ClaimOutcome::ServerError => {
                log.add_message(
                    Level::Error,
                    "(x_x)",
                    String::from_str("There was an error on Discord's side."),
                    false,
                );
            },
            ClaimOutcome::NotFound => {
                log.add_message(
                    Level::Warn,
                    "(╥ω╥)",
                    String::from_str("Code was fake or expired."),
                    false,
                );
            },
            ClaimOutcome::AlreadyRedeemed => {
                log.add_message(
                    Level::Warn,
                    "(╥ω╥)",
                    String::from_str("Code was already redeemed."),
                    false,
                );
            },
            ClaimOutcome::RateLimited => {
                log.add_message(
                    Level::Warn,
                    "(x_x)",
                    String::from_str("We were rate-limited..."),
                    false,
                );
            },
            ClaimOutcome::Unknown { status, body } => {
                let mut text = String::from_str("Received unknown response... (");
                text.append(decimal_string(*status as u128).as_str());
                match &reason {
                    Some(phrase) => {
                        text.append(" ");
                        text.append(phrase.as_str());
                    },
                    None => {},
                }
                text.append(")");
                assert(text@ =~= "Received unknown response... ("@ + status_text(
                    *status,
                    text_of(reason),
                ) + ")"@);
                log.add_message(Level::Error, "┐(¯ω¯;)┌", text, false);
                match body {
                    Some(content) => {
                        let mut detail = String::from_str("...with this body: ");
                        detail.append(content.as_str());
                        log.add_message(Level::Error, "->", detail, false);
                    },
                    None => {
                        log.add_message(
                            Level::Error,
                            "->",
                            String::from_str("...and couldn't parse the body of the response."),
                            false,
                        );
                    },
                }
            },
            ClaimOutcome::TransportFailure => {
                log.add_message(
                    Level::Warn,
                    "┐(¯ω¯;)┌",
                    String::from_str("Requesting failed. Check your connection!"),
                    false,
                );
            },
        }
        assert(log@.messages =~= old(log)@.messages + outcome_messages(self@, text_of(reason)));
    }

    /// Tells the block of the outcome.
    pub fn report(&self, log: &mut LogBlock)
        ensures
            final(log)@ == with_messages(
                old(log)@,
                outcome_messages(self@, outcome_reason(self@)),
            ),
    {
        let reason = match self {
            ClaimOutcome::Unknown { status, body } => reason_phrase(*status),
            _ => None,
        };
        self.report_with(reason, log);
    }
}

/// What all sessions of a run share: the configuration, the doorkeeper, and the
/// counts of sessions connected and of guilds watched.
pub struct HandlerInfo {
    config: Config,
    seen_codes: IdentifierGate,
    token_amount: usize,
    connected: usize,
    total_guilds: usize,
}

/// The shared state as plain values.
pub struct HandlerInfoView {
    pub config: ConfigView,
    pub seen_codes: Set<Seq<char>>,
    pub token_amount: usize,
    pub connected: usize,
    pub total_guilds: usize,
}

impl View for HandlerInfo {
    type V = HandlerInfoView;

    closed spec fn view(&self) -> HandlerInfoView {
        HandlerInfoView {
            config: self.config@,
            seen_codes: self.seen_codes@,
            token_amount: self.token_amount,
            connected: self.connected,
            total_guilds: self.total_guilds,
        }
    }
}

impl HandlerInfo {
    /// The shared state of a run with `token_amount` sessions: nothing seen,
    /// nothing connected.
    pub fn new(config: Config, token_amount: usize) -> (info: HandlerInfo)
        ensures
            info@ == (HandlerInfoView {
                config: config@,
                seen_codes: Set::empty(),
                token_amount,
                connected: 0,
                total_guilds: 0,
            }),
    {
        HandlerInfo {
            config,
            seen_codes: IdentifierGate::new(),
            token_amount,
            connected: 0,
            total_guilds: 0,
        }
    }

    /// The configuration of the run.
    pub fn config(&self) -> (config: &Config)
        ensures
            config@ == self@.config,
    {
        &self.config
    }

    /// The doorkeeper that all sessions show their identifiers to.
    pub fn seen_codes(&self) -> (gate: &IdentifierGate)
        ensures
            gate@ == self@.seen_codes,
    {
        &self.seen_codes
    }

    /// How many sessions the run has.
    pub fn token_amount(&self) -> (amount: usize)
        ensures
            amount == self@.token_amount,
    {
        self.token_amount
    }

    /// How many sessions are connected.
    pub fn connected(&self) -> (amount: usize)
        ensures
            amount == self@.connected,
    {
        self.connected
    }

    /// How many guilds the connected sessions watch, taken together.
    pub fn total_guilds(&self) -> (amount: usize)
        ensures
            amount == self@.total_guilds,
    {
        self.total_guilds
    }
}

/// One session: whether it has begun to set itself up, and the profile of
/// its account once that is known. The profile is written once.
pub struct Handler {
    initialized: bool,
    profile: Option<Profile>,
}

/// A session as plain values.
pub struct HandlerView {
    pub initialized: bool,
    pub profile: Option<ProfileView>,
}

/// What is needed to make one claim: the identifier, the request to send,
/// and the block that collects what is said about the attempt.
pub struct ClaimAttempt {
    pub gift_code: String,
    pub request: Request,
    pub log: LogBlock,
}

/// What is to be done about a message.
pub enum MessageAction {
    /// Nothing.
    Ignore,
    /// The session does not know its account yet: fetch the account and the
    /// number of its guilds, hand them to `initialize_from_raw`, and show the
    /// message again.
    FetchProfile,
    /// The message holds an identifier that nobody has seen: claim it.
    Claim(ClaimAttempt),
}

/// What a reply to a claim leads to: the outcome, and the address to notify
/// where there is something to tell.
pub struct Answer {
    pub outcome: ClaimOutcome,
    pub notify: Option<Webhook>,
}

/// The request that claims `code` for the account behind `token`.
pub open spec fn claim_request_of(code: Seq<char>, token: Seq<char>) -> RequestView {
    RequestView {
        method: Method::Post,
        uri: "https://discordapp.com/api/v8/entitlements/gift-codes/"@ + code + "/redeem"@,
        headers: seq![
            HeaderView { name: "Authorization"@, value: token },
            HeaderView { name: "Content-Length"@, value: "0"@ },
        ],
    }
}

/// The first message of every block: which identifier is being claimed.
pub open spec fn claiming_message(code: Seq<char>) -> LogMessageView {
    plain_message(Level::Info, "(°■°)!"@, "Claiming code: "@ + code + "!"@)
}

/// What a block is told of a reply: the outcome, and after a success that
/// a notification goes out, where an address is configured.
pub open spec fn reply_messages(
    outcome: ClaimOutcomeView,
    webhook: Option<Seq<char>>,
) -> Seq<LogMessageView> {
    if outcome is Success && webhook is Some {
        outcome_messages(outcome, outcome_reason(outcome)).push(
            success_message("(o·ω·o)"@, "Sending webhook message!"@),
        )
    } else {
        outcome_messages(outcome, outcome_reason(outcome))
    }
}

/// The address to notify of an outcome: the configured one after a success,
/// none after anything else.
pub open spec fn notified(outcome: ClaimOutcomeView, webhook: Option<Seq<char>>) -> Option<
    Seq<char>,
> {
    if outcome is Success {
        webhook
    } else {
        None
    }
}

/// What a block is told once the notification was tried: nothing if it was
/// taken, else that it failed.
pub open spec fn notification_messages(delivered: Result<(), ()>) -> Seq<LogMessageView> {
    match delivered {
        Ok(_) => Seq::empty(),
        Err(_) => seq![
            plain_message(Level::Error, "┐(¯ω¯;)┌"@, "Failed sending webhook message"@),
        ],
    }
}

/// The shared state once one more session is connected that watches
/// `guild_amount` guilds. The counts wrap at the limit of the machine's word.
pub open spec fn with_session(info: HandlerInfoView, guild_amount: usize) -> HandlerInfoView {
    HandlerInfoView {
        connected: info.connected.wrapping_add(1),
        total_guilds: info.total_guilds.wrapping_add(guild_amount),
        ..info
    }
}

/// Whether every session of a run of more than one is connected.
pub open spec fn all_connected(info: HandlerInfoView) -> bool {
    info.connected == info.token_amount && info.token_amount > 1
}

/// The shared state once sessions that watch `guild_amounts` guilds have
/// connected, one after the other.
pub open spec fn with_sessions(info: HandlerInfoView, guild_amounts: Seq<usize>) -> HandlerInfoView
    decreases guild_amounts.len(),
{
    if guild_amounts.len() == 0 {
        info
    } else {
        with_session(with_sessions(info, guild_amounts.drop_last()), guild_amounts.last())
    }
}

/// As long as the count of sessions does not reach the limit of the
/// machine's word, it goes up by one with each session that connects.
pub proof fn sessions_are_counted(info: HandlerInfoView, guild_amounts: Seq<usize>)
    requires
        info.connected + guild_amounts.len() <= usize::MAX,
    ensures
        with_sessions(info, guild_amounts).connected == info.connected + guild_amounts.len(),
        with_sessions(info, guild_amounts).token_amount == info.token_amount,
    decreases guild_amounts.len(),
{
    if guild_amounts.len() > 0 {
        sessions_are_counted(info, guild_amounts.drop_last());
    }
}

/// Of the sessions that connect one after the other, at most one is the
/// one with which all are connected: the operator is told so once.
pub proof fn milestone_comes_once(
    info: HandlerInfoView,
    guild_amounts: Seq<usize>,
    first: int,
    second: int,
)
    requires
        info.connected + guild_amounts.len() <= usize::MAX,
        0 < first < second <= guild_amounts.len(),
    ensures
        !(all_connected(with_sessions(info, guild_amounts.take(first))) && all_connected(
            with_sessions(info, guild_amounts.take(second)),
        )),
{
    sessions_are_counted(info, guild_amounts.take(first));
    sessions_are_counted(info, guild_amounts.take(second));
}

/// What the operator is told when a session is connected.
pub open spec fn connected_notice(profile: ProfileView, guild_amount: usize) -> NoticeView {
    NoticeView {
        level: Level::Info,
        kaomoji: "(o·ω·o)"@,
        body: seq![
            plain_span("Connected as "@),
            emphasis(profile_tag(profile)),
            plain_span("! Now sniping in "@),
            emphasis(decimal(guild_amount as nat)),
            plain_span(" guilds..."@),
        ],
    }
}

/// What the operator is told when the last session is connected.
pub open spec fn milestone_notice(info: HandlerInfoView) -> NoticeView {
    plain_notice(
        Level::Info,
        "( ´-ω·)±┻┳══━─"@,
        "Connected to all "@ + decimal(info.token_amount as nat) + " accounts! Sniping in "@
            + decimal(info.total_guilds as nat) + " guilds in total!"@,
    )
}

/// What the operator is told when a session is connected, the shared state
/// being `info` with that session counted: that it is connected, and, when
/// it was the last of several, that all are.
pub open spec fn connection_report(
    profile: ProfileView,
    guild_amount: usize,
    info: HandlerInfoView,
) -> Seq<NoticeView> {
    if all_connected(info) {
        seq![connected_notice(profile, guild_amount), milestone_notice(info)]
    } else {
        seq![connected_notice(profile, guild_amount)]
    }
}

/// What becomes of an identifier found by the session `handler`. A session
/// that knows its account shows it to the doorkeeper, and claims it if the doorkeeper
/// lets it through: with the request to send, and a block that names the
/// identifier. Nothing else changes, and without an identifier nothing does.
pub open spec fn sighting(
    handler: HandlerView,
    before: HandlerInfoView,
    now: HandlerInfoView,
    found: Option<Seq<char>>,
    action: MessageAction,
) -> bool {
    match (found, handler.profile) {
        (Some(code), Some(profile)) => {
            &&& now == HandlerInfoView { seen_codes: after(before.seen_codes, code), ..before }
            &&& if admits(before.seen_codes, code) {
                &&& action matches MessageAction::Claim(attempt)
                &&& attempt.gift_code@ == code
                &&& attempt.request@ == claim_request_of(code, before.config.main_token)
                &&& attempt.log@ == LogBlockView {
                    messages: seq![claiming_message(code)],
                    profile,
                    elapsed: None,
                }
            } else {
                action is Ignore
            }
        },
        _ => action is Ignore && now == before,
    }
}

/// What a message does to a session and to the shared state. A session that
/// has not begun to set itself up begins, and asks for its profile. One that
/// is still waiting for the profile, and any message of a guild on the
/// blacklist, lead to nothing at all: the text is not searched and the doorkeeper
/// is not asked. Otherwise the text is searched, and what is found is shown
/// to the doorkeeper. No message leads to an error.
pub open spec fn message_effect(
    before: HandlerView,
    now: HandlerView,
    info_before: HandlerInfoView,
    info_now: HandlerInfoView,
    msg: MessageView,
    action: Result<MessageAction, PatternError>,
) -> bool {
    if !before.initialized {
        &&& action matches Ok(MessageAction::FetchProfile)
        &&& now == HandlerView { initialized: true, ..before }
        &&& info_now == info_before
    } else if before.profile is None || blacklisted(info_before.config, msg.guild_id) {
        &&& action matches Ok(MessageAction::Ignore)
        &&& now == before
        &&& info_now == info_before
    } else {
        &&& now == before
        &&& action matches Ok(taken)
        &&& sighting(
            before,
            info_before,
            info_now,
            selected(regex_capture(GIFT_PATTERN@, sanitized(msg.content), 2)),
            taken,
        )
    }
}

impl View for Handler {
    type V = HandlerView;

    closed spec fn view(&self) -> HandlerView {
        HandlerView {
            initialized: self.initialized,
            profile: match self.profile {
                Some(profile) => Some(profile@),
                None => None,
            },
        }
    }
}

impl Handler {
    /// A session knows its profile only after it has begun to set itself up.
    #[verifier::type_invariant]
    spec fn well_formed(self) -> bool {
        self.profile is Some ==> self.initialized
    }

    /// A session that has not begun to set itself up.
    pub fn new() -> (handler: Handler)
        ensures
            handler@ == (HandlerView { initialized: false, profile: None }),
    {
        Handler { initialized: false, profile: None }
    }

    /// Whether the session has begun to set itself up.
    pub fn initialized(&self) -> (begun: bool)
        ensures
            begun == self@.initialized,
    {
        self.initialized
    }

    /// The profile of the session's account, once it is known.
    pub fn profile(&self) -> (profile: Option<&Profile>)
        ensures
            match profile {
                Some(known) => self@.profile == Some(known@),
                None => self@.profile is None,
            },
    {
        self.profile.as_ref()
    }

    /// The request that claims `gift_code`. Every claim is made for the main
    /// account, whichever session saw the identifier.
    pub fn make_request(&self, info: &HandlerInfo, gift_code: &str) -> (request: Request)
        ensures
            request@ == claim_request_of(gift_code@, info@.config.main_token),
    {
        let mut uri = String::from_str("https://discordapp.com/api/v8/entitlements/gift-codes/");
        uri.append(gift_code);
        uri.append("/redeem");
        let mut headers: Vec<Header> = Vec::new();
        headers.push(Header::new("Authorization", info.config.main_token()));
        headers.push(Header::new("Content-Length", String::from_str("0")));
        let request = Request { method: Method::Post, uri, headers };
        assert(request@.headers =~= claim_request_of(
            gift_code@,
            info@.config.main_token,
        ).headers);
        request
    }

    /// Takes the reply to a claim, `None` where none came: names the outcome,
    /// tells the block of it, and after a success gives the address to
    /// notify, where one is configured.
    pub fn on_reply(&self, info: &HandlerInfo, reply: Option<Reply>, log: &mut LogBlock) -> (answer:
        Answer)
        ensures
            answer.outcome@ == claim_outcome(reply),
            match answer.notify {
                Some(webhook) => notified(claim_outcome(reply), configured_webhook(info@.config))
                    == Some(webhook.url@),
                None => notified(claim_outcome(reply), configured_webhook(info@.config))
                    is None,
            },
            final(log)@ == with_messages(
                old(log)@,
                reply_messages(claim_outcome(reply), configured_webhook(info@.config)),
            ),
    {
        let outcome = ClaimOutcome::classify(reply);
        if outcome.is_success() {
            let notify = self.on_success(info, log);
            Answer { outcome, notify }
        } else {
            outcome.report(log);
            Answer { outcome, notify: None }
        }
    }

    fn on_success(&self, info: &HandlerInfo, log: &mut LogBlock) -> (notify: Option<Webhook>)
        ensures
            match notify {
                Some(webhook) => configured_webhook(info@.config) == Some(webhook.url@),
                None => configured_webhook(info@.config) is None,
            },
            final(log)@ == with_messages(
                old(log)@,
                reply_messages(ClaimOutcomeView::Success, configured_webhook(info@.config)),
            ),
    {
        log.add_message(Level::Info, "o(»ω«)o", String::from_str("Yay! Claimed code!"), true);
        match info.config.webhook() {
            Some(webhook_url) => {
                log.add_message(
                    Level::Info,
                    "(o·ω·o)",
                    String::from_str("Sending webhook message!"),
                    true,
                );
                assert(log@.messages =~= old(log)@.messages + reply_messages(
                    ClaimOutcomeView::Success,
                    configured_webhook(info@.config),
                ));
                Some(Webhook::new(webhook_url))
            },
            None => {
                assert(log@.messages =~= old(log)@.messages + reply_messages(
                    ClaimOutcomeView::Success,
                    configured_webhook(info@.config),
                ));
                None
            },
        }
    }

    /// Takes the outcome of the notification: a failure is told to the
    /// block, and is all that comes of it.
    pub fn on_notified(&self, delivered: Result<(), ()>, log: &mut LogBlock)
        ensures
            final(log)@ == with_messages(old(log)@, notification_messages(delivered)),
    {
        if delivered.is_err() {
            log.add_message(
                Level::Error,
                "┐(¯ω¯;)┌",
                String::from_str("Failed sending webhook message"),
                false,
            );
        }
        assert(log@.messages =~= old(log)@.messages + notification_messages(delivered));
    }

    fn initialize(&mut self, info: &mut HandlerInfo, profile: Profile, guild_amount: usize) -> (report:
        Vec<Notice>)
        requires
            old(self)@.initialized,
            old(self)@.profile is None,
        ensures
            final(self)@ == (HandlerView { initialized: true, profile: Some(profile@) }),
            final(info)@ == with_session(old(info)@, guild_amount),
            notices_view(report@) == connection_report(profile@, guild_amount, final(info)@),
    {
        let mut body: Vec<Span> = Vec::new();
        body.push(Span::plain(String::from_str("Connected as ")));
        body.push(Span::emphasized(profile.to_string()));
        body.push(Span::plain(String::from_str("! Now sniping in ")));
        body.push(Span::emphasized(decimal_string(guild_amount as u128)));
        body.push(Span::plain(String::from_str(" guilds...")));
        let connected = Notice { level: Level::Info, kaomoji: String::from_str("(o·ω·o)"), body };
        assert(connected@.body =~= connected_notice(profile@, guild_amount).body);
        let mut report: Vec<Notice> = Vec::new();
        report.push(connected);

        self.profile = Some(profile);
        info.total_guilds = info.total_guilds.wrapping_add(guild_amount);
        info.connected = info.connected.wrapping_add(1);

        if info.connected == info.token_amount && info.token_amount > 1 {
            let mut text = String::from_str("Connected to all ");
            text.append(decimal_string(info.token_amount as u128).as_str());
            text.append(" accounts! Sniping in ");
            text.append(decimal_string(info.total_guilds as u128).as_str());
            text.append(" guilds in total!");
            report.push(Notice::plain(Level::Info, "( ´-ω·)±┻┳══━─", text));
        }
        assert(notices_view(report@) =~= connection_report(profile@, guild_amount, info@));
        report
    }

    /// Takes the account and the number of its guilds, fetched because a
    /// message came before the session was told that it is connected. The
    /// session is counted and the operator told, unless the profile is
    /// known already: then nothing happens.
    pub fn initialize_from_raw(
        &mut self,
        info: &mut HandlerInfo,
        user: CurrentUser,
        guild_amount: usize,
    ) -> (report: Vec<Notice>)
        ensures
            match old(self)@.profile {
                Some(_) => {
                    &&& final(self)@ == old(self)@
                    &&& final(info)@ == old(info)@
                    &&& report@.len() == 0
                },
                None => {
                    &&& final(self)@ == (HandlerView {
                        initialized: true,
                        profile: Some(profile_of(user)),
                    })
                    &&& final(info)@ == with_session(old(info)@, guild_amount)
                    &&& notices_view(report@) == connection_report(
                        profile_of(user),
                        guild_amount,
                        final(info)@,
                    )
                },
            },
    {
        if self.profile.is_some() {
            return Vec::new();
        }
        self.initialized = true;
        self.initialize(info, Profile::from(user), guild_amount)
    }

    /// Takes the report that the session is connected. The first one counts:
    /// the profile is kept, the session counted and the operator told. Any
    /// report to a session that has begun to set itself up is ignored.
    pub fn ready(&mut self, info: &mut HandlerInfo, data: Ready) -> (report: Vec<Notice>)
        ensures
            if old(self)@.initialized {
                &&& final(self)@ == old(self)@
                &&& final(info)@ == old(info)@
                &&& report@.len() == 0
            } else {
                &&& final(self)@ == (HandlerView {
                    initialized: true,
                    profile: Some(profile_of(data.user)),
                })
                &&& final(info)@ == with_session(old(info)@, data.guilds)
                &&& notices_view(report@) == connection_report(
                    profile_of(data.user),
                    data.guilds,
                    final(info)@,
                )
            },
    {
        if self.initialized {
            return Vec::new();
        }
        proof {
            use_type_invariant(&*self);
        }
        self.initialized = true;
        self.initialize(info, Profile::from(data.user), data.guilds)
    }

    /// Takes what the search of a message found. An identifier is shown to
    /// the doorkeeper; if it is new, the claim is prepared.
    pub fn sighted(&self, info: &mut HandlerInfo, found: Option<String>) -> (action: MessageAction)
        ensures
            sighting(self@, old(info)@, final(info)@, text_of(found), action),
    {
        match (found, &self.profile) {
            (Some(gift_code), Some(profile)) => {
                if info.seen_codes.observe(gift_code.clone()) {
                    let mut log = LogBlock::new(profile);
                    let mut text = String::from_str("Claiming code: ");
                    text.append(gift_code.as_str());
                    text.append("!");
                    log.add_message(Level::Info, "(°■°)!", text, false);
                    assert(log@.messages =~= seq![claiming_message(gift_code@)]);
                    let request = self.make_request(info, gift_code.as_str());
                    MessageAction::Claim(ClaimAttempt { gift_code, request, log })
                } else {
                    MessageAction::Ignore
                }
            },
            _ => MessageAction::Ignore,
        }
    }

    /// Takes a message that the session received and says what is to be
    /// done about it. The search of the text is made with the gift pattern,
    /// which can be used: the result is never an error.
    pub fn message(&mut self, info: &mut HandlerInfo, msg: &Message) -> (action: Result<
        MessageAction,
        PatternError,
    >)
        ensures
            message_effect(old(self)@, final(self)@, old(info)@, final(info)@, msg@, action),
    {
        if !self.initialized {
            proof {
                use_type_invariant(&*self);
            }
            self.initialized = true;
            return Ok(MessageAction::FetchProfile);
        }
        if self.profile.is_none() {
            return Ok(MessageAction::Ignore);
        }
        if info.config.is_guild_blacklisted(msg.guild_id) {
            return Ok(MessageAction::Ignore);
        }
        match get_gift_code(msg.content.as_str()) {
            Ok(found) => Ok(self.sighted(info, found)),
            Err(fault) => Err(fault),
        }
    }
}

} // verus!
