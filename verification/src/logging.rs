//! Operator-facing messages: single notices, and blocks that collect
//! everything said about one claim attempt and come out in one piece.

use crate::cache::{location_text, Location, LocationView};
use crate::discord::{profile_tag, Profile, ProfileView};
use crate::text::{decimal, decimal_string, zero_padded, zero_padded_string};
use chrono::Timelike;
use std::time::{Duration, Instant};
use vstd::prelude::*;
use vstd::string::*;

verus! {

/// A point on the machine's monotonic clock.
#[verifier::external_type_specification]
#[verifier::external_body]
pub struct ExInstant(Instant);

/// `Instant::now` reads the monotonic clock; nothing is known of the reading.
pub assume_specification[ Instant::now ]() -> Instant;

/// `Instant::elapsed` gives the time that has passed since the instant was
/// taken; nothing is known of its length.
pub assume_specification[ Instant::elapsed ](start: &Instant) -> Duration;

/// `Duration::as_millis` gives the whole milliseconds of a duration.
pub assume_specification[ Duration::as_millis ](span: &Duration) -> u128;

/// The local time of day from `chrono::Local::now`, as hour, minute and
/// second. Nothing is claimed of the reading.
#[verifier::external_body]
fn local_time_of_day() -> (now: ClockTime) {
    let now = chrono::Local::now();
    ClockTime { hour: now.hour(), minute: now.minute(), second: now.second() }
}

/// How much a message matters.
#[derive(Clone, Copy, Debug, PartialEq, Eq, Structural)]
pub enum Level {
    Error,
    Warn,
    Info,
    Debug,
    Trace,
}

/// The colour in which a piece of text is shown.
#[derive(Clone, Copy, Debug, PartialEq, Eq, Structural)]
pub enum Color {
    Plain,
    Blue,
    Cyan,
    Magenta,
    Yellow,
    BrightBlack,
    BrightGreen,
    BrightMagenta,
    BrightWhite,
}

/// A time of day.
#[derive(Clone, Copy, Debug, PartialEq, Eq, Structural)]
pub struct ClockTime {
    pub hour: u32,
    pub minute: u32,
    pub second: u32,
}

/// A piece of text with the style it is shown in.
#[derive(Debug, PartialEq, Eq)]
pub struct Span {
    pub text: String,
    pub color: Color,
    pub bold: bool,
}

/// A span as plain text and style.
pub struct SpanView {
    pub text: Seq<char>,
    pub color: Color,
    pub bold: bool,
}

impl View for Span {
    type V = SpanView;

    open spec fn view(&self) -> SpanView {
        SpanView { text: self.text@, color: self.color, bold: self.bold }
    }
}

/// The spans of one line, each as text and style.
pub open spec fn line_view(line: Seq<Span>) -> Seq<SpanView> {
    line.map_values(|span: Span| span@)
}

/// The lines of an output, each as its spans.
pub open spec fn lines_view(lines: Seq<Vec<Span>>) -> Seq<Seq<SpanView>> {
    lines.map_values(|line: Vec<Span>| line_view(line@))
}

/// An unstyled span.
pub open spec fn plain_span(text: Seq<char>) -> SpanView {
    SpanView { text, color: Color::Plain, bold: false }
}

/// The mark that stands for a level, in the level's colour.
pub open spec fn level_mark(level: Level) -> SpanView {
    match level {
        Level::Info => SpanView { text: "+"@, color: Color::Cyan, bold: false },
        Level::Trace => SpanView { text: "-"@, color: Color::Blue, bold: false },
        Level::Error => SpanView { text: "!"@, color: Color::BrightMagenta, bold: false },
        Level::Debug => SpanView { text: "*"@, color: Color::BrightBlack, bold: false },
        Level::Warn => SpanView { text: "?"@, color: Color::Yellow, bold: false },
    }
}

/// `hh:mm:ss`, each part in two digits.
pub open spec fn clock_text(time: ClockTime) -> Seq<char> {
    zero_padded(decimal(time.hour as nat), 2) + ":"@ + zero_padded(decimal(time.minute as nat), 2)
        + ":"@ + zero_padded(decimal(time.second as nat), 2)
}

fn span(text: String, color: Color, bold: bool) -> (made: Span)
    ensures
        made@ == (SpanView { text: text@, color, bold }),
{
    Span { text, color, bold }
}

/// The mark that stands for `level`.
pub fn map_level(level: Level) -> (mark: Span)
    ensures
        mark@ == level_mark(level),
{
    match level {
        Level::Info => span(String::from_str("+"), Color::Cyan, false),
        Level::Trace => span(String::from_str("-"), Color::Blue, false),
        Level::Error => span(String::from_str("!"), Color::BrightMagenta, false),
        Level::Debug => span(String::from_str("*"), Color::BrightBlack, false),
        Level::Warn => span(String::from_str("?"), Color::Yellow, false),
    }
}

/// Writes a time of day as `hh:mm:ss`.
pub fn clock_string(time: ClockTime) -> (text: String)
    ensures
        text@ == clock_text(time),
{
    let mut text = zero_padded_string(time.hour as u128, 2);
    text.append(":");
    text.append(zero_padded_string(time.minute as u128, 2).as_str());
    text.append(":");
    text.append(zero_padded_string(time.second as u128, 2).as_str());
    text
}

/// A message to the operator outside any block: a label, and text that may
/// carry styles.
#[derive(Debug, PartialEq, Eq)]
pub struct Notice {
    pub level: Level,
    pub kaomoji: String,
    pub body: Vec<Span>,
}

/// A notice as plain values.
pub struct NoticeView {
    pub level: Level,
    pub kaomoji: Seq<char>,
    pub body: Seq<SpanView>,
}

impl View for Notice {
    type V = NoticeView;

    open spec fn view(&self) -> NoticeView {
        NoticeView { level: self.level, kaomoji: self.kaomoji@, body: line_view(self.body@) }
    }
}

/// The notices of a report, each as plain values.
pub open spec fn notices_view(notices: Seq<Notice>) -> Seq<NoticeView> {
    notices.map_values(|notice: Notice| notice@)
}

/// A notice whose text has no styles.
pub open spec fn plain_notice(level: Level, kaomoji: Seq<char>, text: Seq<char>) -> NoticeView {
    NoticeView { level, kaomoji, body: seq![plain_span(text)] }
}

/// A piece of text that stands out: bold and magenta.
pub open spec fn emphasis(text: Seq<char>) -> SpanView {
    SpanView { text, color: Color::Magenta, bold: true }
}

impl Span {
    /// An unstyled span.
    pub fn plain(text: String) -> (made: Span)
        ensures
            made@ == plain_span(text@),
    {
        Span { text, color: Color::Plain, bold: false }
    }

    /// A span that stands out.
    pub fn emphasized(text: String) -> (made: Span)
        ensures
            made@ == emphasis(text@),
    {
        Span { text, color: Color::Magenta, bold: true }
    }
}

impl Notice {
    /// A notice whose text has no styles.
    pub fn plain(level: Level, kaomoji: &str, text: String) -> (notice: Notice)
        ensures
            notice@ == plain_notice(level, kaomoji@, text@),
    {
        let mut body: Vec<Span> = Vec::new();
        body.push(Span::plain(text));
        assert(line_view(body@) =~= seq![plain_span(text@)]);
        Notice { level, kaomoji: String::from_str(kaomoji), body }
    }
}

/// One message of a block: a label, the text, how much it matters and
/// whether it reports a success.
#[derive(Debug, PartialEq, Eq)]
pub struct LogMessage {
    kaomoji: String,
    text: String,
    level: Level,
    is_success: bool,
}

/// A message as plain text.
pub struct LogMessageView {
    pub kaomoji: Seq<char>,
    pub text: Seq<char>,
    pub level: Level,
    pub is_success: bool,
}

impl View for LogMessage {
    type V = LogMessageView;

    closed spec fn view(&self) -> LogMessageView {
        LogMessageView {
            kaomoji: self.kaomoji@,
            text: self.text@,
            level: self.level,
            is_success: self.is_success,
        }
    }
}

/// The messages of a block, each as plain text.
pub open spec fn messages_view(messages: Seq<LogMessage>) -> Seq<LogMessageView> {
    messages.map_values(|message: LogMessage| message@)
}

/// The line in which a message is shown: the level's mark in brackets, the
/// label in bold, the text. A success is green throughout.
pub open spec fn message_line(message: LogMessageView) -> Seq<SpanView> {
    let tint = if message.is_success {
        Color::BrightGreen
    } else {
        Color::Plain
    };
    let label_tint = if message.is_success {
        Color::BrightGreen
    } else {
        Color::BrightWhite
    };
    seq![
        plain_span(" ("@),
        level_mark(message.level),
        plain_span(") "@),
        SpanView { text: message.kaomoji, color: label_tint, bold: true },
        plain_span(" "@),
        SpanView { text: message.text, color: tint, bold: false },
    ]
}

impl LogMessage {
    /// The label in front of the text.
    pub fn kaomoji(&self) -> (label: &str)
        ensures
            label@ == self@.kaomoji,
    {
        self.kaomoji.as_str()
    }

    /// What the message says.
    pub fn text(&self) -> (text: &str)
        ensures
            text@ == self@.text,
    {
        self.text.as_str()
    }

    /// How much the message matters.
    pub fn level(&self) -> (level: Level)
        ensures
            level == self@.level,
    {
        self.level
    }

    /// Whether the message reports a success.
    pub fn is_success(&self) -> (highlighted: bool)
        ensures
            highlighted == self@.is_success,
    {
        self.is_success
    }

    /// The line in which the message is shown.
    pub fn send(&self) -> (line: Vec<Span>)
        ensures
            line_view(line@) == message_line(self@),
    {
        let tint = if self.is_success {
            Color::BrightGreen
        } else {
            Color::Plain
        };
        let label_tint = if self.is_success {
            Color::BrightGreen
        } else {
            Color::BrightWhite
        };
        let mut line: Vec<Span> = Vec::new();
        line.push(span(String::from_str(" ("), Color::Plain, false));
        line.push(map_level(self.level));
        line.push(span(String::from_str(") "), Color::Plain, false));
        line.push(span(self.kaomoji.clone(), label_tint, true));
        line.push(span(String::from_str(" "), Color::Plain, false));
        line.push(span(self.text.clone(), tint, false));
        assert(line_view(line@) =~= message_line(self@));
        line
    }
}

/// Everything said about one claim attempt, in the order it was said, with
/// the account that made the attempt and the time the attempt took.
pub struct LogBlock {
    messages: Vec<LogMessage>,
    start: Instant,
    profile: Profile,
    elapsed: Option<u128>,
}

/// A block as plain values. The clock reading taken at the start is no part
/// of it.
pub struct LogBlockView {
    pub messages: Seq<LogMessageView>,
    pub profile: ProfileView,
    pub elapsed: Option<u128>,
}

impl View for LogBlock {
    type V = LogBlockView;

    closed spec fn view(&self) -> LogBlockView {
        LogBlockView {
            messages: messages_view(self.messages@),
            profile: self.profile@,
            elapsed: self.elapsed,
        }
    }
}

/// The block with one more message at its end.
pub open spec fn with_message(block: LogBlockView, message: LogMessageView) -> LogBlockView {
    LogBlockView { messages: block.messages.push(message), ..block }
}

/// The block with its duration fixed to `reading`, unless it was fixed
/// before: the first value stays.
pub open spec fn frozen(block: LogBlockView, reading: u128) -> LogBlockView {
    match block.elapsed {
        Some(_) => block,
        None => LogBlockView { elapsed: Some(reading), ..block },
    }
}

/// Fixing the duration twice records the first reading only: the second
/// call changes nothing.
pub proof fn freeze_keeps_first_reading(block: LogBlockView, first: u128, second: u128)
    ensures
        frozen(block, first).elapsed is Some,
        frozen(frozen(block, first), second) == frozen(block, first),
        block.elapsed is None ==> frozen(frozen(block, first), second).elapsed == Some(first),
{
}

/// The message that a block gets when the location could not be resolved.
pub open spec fn location_failure() -> LogMessageView {
    LogMessageView {
        kaomoji: "(x_x)"@,
        text: "Failed requesting location for event."@,
        level: Level::Error,
        is_success: false,
    }
}

/// The location shown for the outcome of a resolution: the resolved one, or
/// the placeholder.
pub open spec fn shown_location(resolved: Result<Location, ()>) -> LocationView {
    match resolved {
        Ok(location) => location@,
        Err(_) => LocationView { guild_name: None, channel_name: "?"@ },
    }
}

/// The block as it is flushed: the duration fixed, and a failed resolution
/// noted as its last message.
pub open spec fn flushed(
    block: LogBlockView,
    resolved: Result<Location, ()>,
    reading: u128,
) -> LogBlockView {
    let timed = frozen(block, reading);
    match resolved {
        Ok(_) => timed,
        Err(_) => with_message(timed, location_failure()),
    }
}

/// The first line of a flushed block: time, account, location and sender.
pub open spec fn header_line(
    time: ClockTime,
    profile: ProfileView,
    location: LocationView,
    sender: Seq<char>,
) -> Seq<SpanView> {
    seq![
        plain_span(
            "\n"@ + clock_text(time) + " › ("@ + profile_tag(profile) + ") ["@ + location_text(
                location,
            ) + " > "@ + sender + "]"@,
        ),
    ]
}

/// The last line of a flushed block: the time the attempt took.
pub open spec fn footer_line(millis: u128) -> Seq<SpanView> {
    seq![plain_span("Finished in: "@ + decimal(millis as nat) + "ms"@)]
}

/// What a flushed block puts out: the header, every message in the order it
/// was added, and the duration.
pub open spec fn block_lines(
    block: LogBlockView,
    time: ClockTime,
    location: LocationView,
    sender: Seq<char>,
) -> Seq<Seq<SpanView>>
    recommends
        block.elapsed is Some,
{
    seq![header_line(time, block.profile, location, sender)] + block.messages.map_values(
        |message: LogMessageView| message_line(message),
    ) + seq![footer_line(block.elapsed->0)]
}

impl LogBlock {
    /// An empty block for an attempt made by `profile`, started now.
    pub fn new(profile: &Profile) -> (block: LogBlock)
        ensures
            block@ == (LogBlockView {
                messages: Seq::empty(),
                profile: profile@,
                elapsed: None,
            }),
    {
        let block = LogBlock {
            messages: Vec::new(),
            start: Instant::now(),
            profile: profile.clone(),
            elapsed: None,
        };
        assert(messages_view(block.messages@) =~= Seq::empty());
        block
    }

    /// Adds a message at the end of the block.
    pub fn add_message(&mut self, level: Level, kaomoji: &str, text: String, is_success: bool)
        ensures
            final(self)@ == with_message(
                old(self)@,
                LogMessageView { kaomoji: kaomoji@, text: text@, level, is_success },
            ),
    {
        let message = LogMessage { kaomoji: String::from_str(kaomoji), text, level, is_success };
        self.messages.push(message);
        assert(messages_view(self.messages@) =~= messages_view(old(self).messages@).push(
            message@,
        ));
    }

    /// Fixes the duration to `reading` unless it was fixed before.
    pub fn freeze_at(&mut self, reading: u128)
        ensures
            final(self)@ == frozen(old(self)@, reading),
    {
        if self.elapsed.is_none() {
            self.elapsed = Some(reading);
        }
    }

    /// Fixes the duration to the time that has passed since the block was
    /// made. A block whose duration is fixed stays as it is.
    pub fn freeze_time(&mut self)
        ensures
            final(self)@.elapsed is Some,
            old(self)@.elapsed is Some ==> final(self)@ == old(self)@,
            final(self)@ == frozen(old(self)@, final(self)@.elapsed->0),
    {
        let reading = self.start.elapsed().as_millis();
        self.freeze_at(reading);
    }

    /// The fixed duration in milliseconds, if it was fixed.
    pub fn elapsed(&self) -> (millis: Option<u128>)
        ensures
            millis == self@.elapsed,
    {
        self.elapsed
    }

    /// The messages added so far, first one first.
    pub fn messages(&self) -> (messages: &Vec<LogMessage>)
        ensures
            messages_view(messages@) == self@.messages,
    {
        &self.messages
    }

    /// Flushes the block with the given clock readings: `time` for the
    /// header, `reading` for the duration if it is not fixed yet.
    pub fn send_at(
        &mut self,
        location_cache: Result<Location, ()>,
        sender: String,
        time: ClockTime,
        reading: u128,
    ) -> (lines: Vec<Vec<Span>>)
        ensures
            final(self)@ == flushed(old(self)@, location_cache, reading),
            lines_view(lines@) == block_lines(
                final(self)@,
                time,
                shown_location(location_cache),
                sender@,
            ),
    {
        self.freeze_at(reading);
        let location = match location_cache {
            Ok(location) => location,
            Err(_) => {
                self.add_message(
                    Level::Error,
                    "(x_x)",
                    String::from_str("Failed requesting location for event."),
                    false,
                );
                Location::default()
            },
        };

        let mut header = String::from_str("\n");
        header.append(clock_string(time).as_str());
        header.append(" › (");
        header.append(self.profile.to_string().as_str());
        header.append(") [");
        header.append(location.to_string().as_str());
        header.append(" > ");
        header.append(sender.as_str());
        header.append("]");
        let mut first: Vec<Span> = Vec::new();
        first.push(span(header, Color::Plain, false));
        assert(line_view(first@) =~= header_line(time, self@.profile, location@, sender@));

        let mut lines: Vec<Vec<Span>> = Vec::new();
        lines.push(first);
        let mut index: usize = 0;
        while index < self.messages.len()
            invariant
                index <= self.messages.len(),
                lines_view(lines@) == seq![header_line(time, self@.profile, location@, sender@)]
                    + self@.messages.take(index as int).map_values(
                    |message: LogMessageView| message_line(message),
                ),
            decreases self.messages.len() - index,
        {
            let ghost before = lines@;
            let line = self.messages[index].send();
            lines.push(line);
            index = index + 1;
            proof {
                let shown = |message: LogMessageView| message_line(message);
                let added = self@.messages[index - 1];
                assert(line_view(line@) == shown(added));
                assert(lines_view(lines@) =~= lines_view(before).push(line_view(line@)));
                assert(self@.messages.take(index as int) =~= self@.messages.take(
                    index - 1,
                ).push(added));
                assert(self@.messages.take(index as int).map_values(shown)
                    =~= self@.messages.take(index - 1).map_values(shown).push(shown(added)));
            }
        }
        assert(self@.messages.take(index as int) =~= self@.messages);

        let millis: u128 = match self.elapsed {
            Some(millis) => millis,
            None => reading,
        };
        let mut footer = String::from_str("Finished in: ");
        footer.append(decimal_string(millis).as_str());
        footer.append("ms");
        let mut last: Vec<Span> = Vec::new();
        last.push(span(footer, Color::Plain, false));
        assert(line_view(last@) =~= footer_line(millis));
        lines.push(last);
        assert(lines_view(lines@) =~= block_lines(self@, time, location@, sender@));
        lines
    }

    /// Flushes the block: fixes the duration if that was not done, notes a
    /// failed resolution, and gives the header, the messages and the duration
    /// as the lines to put out in one piece.
    pub fn send(&mut self, location_cache: Result<Location, ()>, sender: String) -> (lines: Vec<
        Vec<Span>,
    >)
        ensures
            final(self)@.elapsed is Some,
            final(self)@ == flushed(old(self)@, location_cache, final(self)@.elapsed->0),
            exists|time: ClockTime|
                lines_view(lines@) == #[trigger] block_lines(
                    final(self)@,
                    time,
                    shown_location(location_cache),
                    sender@,
                ),
    {
        let reading = self.start.elapsed().as_millis();
        let time = local_time_of_day();
        self.send_at(location_cache, sender, time, reading)
    }
}

} // verus!
