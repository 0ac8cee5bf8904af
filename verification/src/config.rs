//! What the operator configures: credentials, the notification address and
//! the guilds to leave alone.

use crate::logging::{notices_view, plain_notice, Level, Notice, NoticeView};
use crate::text::text_of;
use vstd::prelude::*;
use vstd::string::*;

verus! {

/// The configuration of a run.
pub struct Config {
    main_token: String,
    snipe_on_main_token: bool,
    sub_tokens: Vec<String>,
    webhook: String,
    guild_blacklist: Vec<u64>,
}

/// A configuration as plain values.
pub struct ConfigView {
    pub main_token: Seq<char>,
    pub snipe_on_main_token: bool,
    pub sub_tokens: Seq<Seq<char>>,
    pub webhook: Seq<char>,
    pub guild_blacklist: Seq<u64>,
}

/// A list of strings as plain text.
pub open spec fn texts(strings: Seq<String>) -> Seq<Seq<char>> {
    strings.map_values(|text: String| text@)
}

/// The credentials that watch for identifiers: the secondary ones in their
/// order, behind the main one where that takes part.
pub open spec fn sniping_tokens(config: ConfigView) -> Seq<Seq<char>> {
    if config.snipe_on_main_token {
        seq![config.main_token] + config.sub_tokens
    } else {
        config.sub_tokens
    }
}

/// The notification address, where one is configured: an empty address
/// stands for none.
pub open spec fn configured_webhook(config: ConfigView) -> Option<Seq<char>> {
    if config.webhook.len() == 0 {
        None
    } else {
        Some(config.webhook)
    }
}

/// Whether messages of the guild `id` are left alone. A message outside any
/// guild never is.
pub open spec fn blacklisted(config: ConfigView, id: Option<u64>) -> bool {
    match id {
        Some(guild) => config.guild_blacklist.contains(guild),
        None => false,
    }
}

impl View for Config {
    type V = ConfigView;

    closed spec fn view(&self) -> ConfigView {
        ConfigView {
            main_token: self.main_token@,
            snipe_on_main_token: self.snipe_on_main_token,
            sub_tokens: texts(self.sub_tokens@),
            webhook: self.webhook@,
            guild_blacklist: self.guild_blacklist@,
        }
    }
}

impl Default for Config {
    /// The configuration that a new file is written with.
    fn default() -> (config: Config)
        ensures
            config@ == (ConfigView {
                main_token: "YOUR_TOKEN_HERE"@,
                snipe_on_main_token: true,
                sub_tokens: Seq::empty(),
                webhook: ""@,
                guild_blacklist: Seq::empty(),
            }),
    {
        let config = Config {
            main_token: String::from_str("YOUR_TOKEN_HERE"),
            snipe_on_main_token: true,
            sub_tokens: Vec::new(),
            webhook: String::from_str(""),
            guild_blacklist: Vec::new(),
        };
        assert(texts(config.sub_tokens@) =~= Seq::empty());
        config
    }
}

impl Config {
    /// A configuration with the given settings.
    pub fn new(
        main_token: String,
        snipe_on_main_token: bool,
        sub_tokens: Vec<String>,
        webhook: String,
        guild_blacklist: Vec<u64>,
    ) -> (config: Config)
        ensures
            config@ == (ConfigView {
                main_token: main_token@,
                snipe_on_main_token,
                sub_tokens: texts(sub_tokens@),
                webhook: webhook@,
                guild_blacklist: guild_blacklist@,
            }),
    {
        Config { main_token, snipe_on_main_token, sub_tokens, webhook, guild_blacklist }
    }

    /// The main credential.
    pub fn main_token(&self) -> (token: String)
        ensures
            token@ == self@.main_token,
    {
        self.main_token.clone()
    }

    /// Whether the main credential watches too.
    pub fn snipe_on_main_token(&self) -> (takes_part: bool)
        ensures
            takes_part == self@.snipe_on_main_token,
    {
        self.snipe_on_main_token
    }

    /// The secondary credentials, in their order.
    pub fn sub_tokens(&self) -> (tokens: Vec<String>)
        ensures
            texts(tokens@) == self@.sub_tokens,
    {
        let mut tokens: Vec<String> = Vec::new();
        let mut index: usize = 0;
        while index < self.sub_tokens.len()
            invariant
                index <= self.sub_tokens.len(),
                texts(tokens@) == self@.sub_tokens.take(index as int),
            decreases self.sub_tokens.len() - index,
        {
            let ghost before = tokens@;
            tokens.push(self.sub_tokens[index].clone());
            index = index + 1;
            proof {
                let added = self@.sub_tokens[index - 1];
                assert(texts(tokens@) =~= texts(before).push(added));
                assert(self@.sub_tokens.take(index as int) =~= self@.sub_tokens.take(
                    index - 1,
                ).push(added));
            }
        }
        assert(self@.sub_tokens.take(index as int) =~= self@.sub_tokens);
        tokens
    }

    /// The guilds whose messages are left alone.
    pub fn guild_blacklist(&self) -> (guilds: Vec<u64>)
        ensures
            guilds@ == self@.guild_blacklist,
    {
        let mut guilds: Vec<u64> = Vec::new();
        let mut index: usize = 0;
        while index < self.guild_blacklist.len()
            invariant
                index <= self.guild_blacklist.len(),
                guilds@ == self@.guild_blacklist.take(index as int),
            decreases self.guild_blacklist.len() - index,
        {
            guilds.push(self.guild_blacklist[index]);
            index = index + 1;
            assert(guilds@ =~= self@.guild_blacklist.take(index as int));
        }
        assert(self@.guild_blacklist.take(index as int) =~= self@.guild_blacklist);
        guilds
    }

    /// The credentials that watch for identifiers.
    pub fn get_all_sniping_tokens(&self) -> (tokens: Vec<String>)
        ensures
            texts(tokens@) == sniping_tokens(self@),
    {
        let mut tokens = self.sub_tokens();
        if self.snipe_on_main_token {
            let ghost before = tokens@;
            tokens.insert(0, self.main_token());
            assert(texts(tokens@) =~= seq![self@.main_token] + texts(before));
        }
        tokens
    }

    /// The notification address, where one is configured.
    pub fn webhook(&self) -> (address: Option<String>)
        ensures
            text_of(address) == configured_webhook(self@),
    {
        if self.webhook.as_str().is_empty() {
            None
        } else {
            Some(self.webhook.clone())
        }
    }

    /// Whether messages of the guild `id` are left alone.
    pub fn is_guild_blacklisted(&self, id: Option<u64>) -> (listed: bool)
        ensures
            listed == blacklisted(self@, id),
    {
        match id {
            Some(guild) => {
                let mut index: usize = 0;
                while index < self.guild_blacklist.len()
                    invariant
                        index <= self.guild_blacklist.len(),
                        id == Some(guild),
                        forall|k: int| 0 <= k < index ==> self.guild_blacklist@[k] != guild,
                    decreases self.guild_blacklist.len() - index,
                {
                    if self.guild_blacklist[index] == guild {
                        assert(self@.guild_blacklist[index as int] == guild);
                        return true;
                    }
                    index = index + 1;
                }
                false
            },
            None => false,
        }
    }
}

/// Why no configuration could be had.
#[derive(Debug, PartialEq, Eq)]
pub enum ConfigReadError {
    /// There is no configuration file.
    NoSuchFile,
    /// The file is there and could not be read.
    FailedReading,
    /// The file does not hold a configuration; the reason is given.
    MalformedConfig(String),
}

/// What the operator is told when no configuration could be had.
/// `created` says whether a file with the default configuration was written
/// in place of a missing one.
pub open spec fn read_error_report(error: ConfigReadError, created: bool) -> Seq<NoticeView> {
    match error {
        ConfigReadError::NoSuchFile => if created {
            seq![
                plain_notice(
                    Level::Error,
                    "┐(¯ω¯;)┌"@,
                    "No previous config file found. Please change your configuration in the rns-config.json file I just created!"@,
                ),
            ]
        } else {
            seq![
                plain_notice(
                    Level::Error,
                    "┐(¯ω¯;)┌"@,
                    "No previous config file found. Please create an rns-config.json file with your configuration!"@,
                ),
            ]
        },
        ConfigReadError::MalformedConfig(reason) => seq![
            plain_notice(
                Level::Error,
                "┐(¯ω¯;)┌"@,
                "I couldn't read you config. Did you format it correctly?"@,
            ),
            plain_notice(Level::Error, "->"@, "..."@ + reason@ + "."@),
        ],
        ConfigReadError::FailedReading => seq![
            plain_notice(Level::Error, "┐(¯ω¯;)┌"@, "I wasn't able to open your config..."@),
        ],
    }
}

impl ConfigReadError {
    /// Whether a file with the default configuration is to be written
    /// before the error is reported.
    pub fn wants_default_file(&self) -> (wanted: bool)
        ensures
            wanted == (*self is NoSuchFile),
    {
        match self {
            ConfigReadError::NoSuchFile => true,
            _ => false,
        }
    }

    /// What the operator is told before the run ends. `created` says
    /// whether the default file could be written; it matters only where the
    /// file was missing.
    pub fn handle(&self, created: bool) -> (report: Vec<Notice>)
        ensures
            notices_view(report@) == read_error_report(*self, created),
    {
        let mut report: Vec<Notice> = Vec::new();
        match self {
            ConfigReadError::NoSuchFile => {
                if created {
                    report.push(
                        Notice::plain(
                            Level::Error,
                            "┐(¯ω¯;)┌",
                            String::from_str(
                                "No previous config file found. Please change your configuration in the rns-config.json file I just created!",
                            ),
                        ),
                    );
                } else {
                    report.push(
                        Notice::plain(
                            Level::Error,
                            "┐(¯ω¯;)┌",
                            String::from_str(
                                "No previous config file found. Please create an rns-config.json file with your configuration!",
                            ),
                        ),
                    );
                }
            },
            ConfigReadError::MalformedConfig(reason) => {
                report.push(
                    Notice::plain(
                        Level::Error,
                        "┐(¯ω¯;)┌",
                        String::from_str(
                            "I couldn't read you config. Did you format it correctly?",
                        ),
                    ),
                );
                let mut detail = String::from_str("...");
                detail.append(reason.as_str());
                detail.append(".");
                report.push(Notice::plain(Level::Error, "->", detail));
            },
            ConfigReadError::FailedReading => {
                report.push(
                    Notice::plain(
                        Level::Error,
                        "┐(¯ω¯;)┌",
                        String::from_str("I wasn't able to open your config..."),
                    ),
                );
            },
        }
        assert(notices_view(report@) =~= read_error_report(*self, created));
        report
    }
}

} // verus!
