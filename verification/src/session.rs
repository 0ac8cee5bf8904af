//! Watching over the sessions of a run: which are connected, which have
//! ended, and when none is left.

use crate::discord::{profile_tag, Profile, ProfileView};
use crate::logging::{notices_view, plain_notice, Level, Notice, NoticeView};
use crate::text::{decimal, decimal_string};
use vstd::prelude::*;
use vstd::string::*;

verus! {

/// Where a session stands. A session that has ended stays ended.
#[derive(Clone, Copy, Debug, PartialEq, Eq, Structural)]
pub enum WorkerPhase {
    /// Not connected yet.
    Connecting,
    /// Connected, and receiving events.
    Ready,
    /// Ended for good.
    Disconnected,
}

/// How a session ended.
#[derive(Clone, Copy, Debug, PartialEq, Eq, Structural)]
pub enum WorkerEnd {
    /// No client could be made for its credential.
    NoClient,
    /// The connection could not be made, or broke.
    ConnectionFailed,
    /// The connection was closed.
    Closed,
}

/// The sessions of a run, one for each credential, by their number.
pub struct SessionOrchestrator {
    phases: Vec<WorkerPhase>,
}

impl View for SessionOrchestrator {
    type V = Seq<WorkerPhase>;

    closed spec fn view(&self) -> Seq<WorkerPhase> {
        self.phases@
    }
}

/// Whether every session has ended.
pub open spec fn all_ended(phases: Seq<WorkerPhase>) -> bool {
    forall|i: int| 0 <= i < phases.len() ==> phases[i] == WorkerPhase::Disconnected
}

/// The sessions once session `index` has reported that it is connected:
/// a session that was connecting is ready, and nothing else changes.
pub open spec fn with_ready(phases: Seq<WorkerPhase>, index: int) -> Seq<WorkerPhase> {
    if 0 <= index < phases.len() && phases[index] == WorkerPhase::Connecting {
        phases.update(index, WorkerPhase::Ready)
    } else {
        phases
    }
}

/// The sessions once session `index` has ended.
pub open spec fn with_ended(phases: Seq<WorkerPhase>, index: int) -> Seq<WorkerPhase> {
    if 0 <= index < phases.len() {
        phases.update(index, WorkerPhase::Disconnected)
    } else {
        phases
    }
}

/// What the operator is told of the way a session ended. A connection that
/// was closed is not worth a word.
pub open spec fn end_notices(index: usize, end: WorkerEnd) -> Seq<NoticeView> {
    match end {
        WorkerEnd::NoClient => seq![
            plain_notice(
                Level::Error,
                "(-_-;)°°°"@,
                "Couldn't instantiate a Discord client for token #"@ + decimal(index as nat)
                    + "."@,
            ),
        ],
        WorkerEnd::ConnectionFailed => seq![
            plain_notice(
                Level::Error,
                "(＃`Д´)"@,
                "Couldn't make a connection to Discord on token #"@ + decimal(index as nat)
                    + ". Is your token correct?"@,
            ),
        ],
        WorkerEnd::Closed => Seq::empty(),
    }
}

/// What the operator is told when no session is left. The run ends there.
pub open spec fn lost_notice() -> NoticeView {
    plain_notice(Level::Error, "(x_x)"@, "Lost all connections."@)
}

/// What the operator is told when session `index` ends in the way `end`,
/// the sessions being `phases` before. A session that is not of this run,
/// or has ended before, is passed over. The end of the last session is
/// followed by the word that all are lost.
pub open spec fn end_report(phases: Seq<WorkerPhase>, index: usize, end: WorkerEnd) -> Seq<
    NoticeView,
> {
    if 0 <= index < phases.len() && phases[index as int] != WorkerPhase::Disconnected {
        if all_ended(with_ended(phases, index as int)) {
            end_notices(index, end).push(lost_notice())
        } else {
            end_notices(index, end)
        }
    } else {
        Seq::empty()
    }
}

/// What the operator is told when the run begins.
pub open spec fn welcome_notice(profile: ProfileView) -> NoticeView {
    plain_notice(
        Level::Info,
        "o(»ω«)o"@,
        "If we're lucky you'll get Nitro on "@ + profile_tag(profile) + "!"@,
    )
}

/// What the operator is told when the sessions are about to connect.
pub open spec fn start_notice(token_amount: usize) -> NoticeView {
    plain_notice(
        Level::Info,
        "(o·ω·o)"@,
        "I'll be sniping on "@ + decimal(token_amount as nat)
            + " account(s)! Please wait until I connect to them..."@,
    )
}

/// What the operator is told when there is no credential to watch with.
pub open spec fn no_tokens_notice() -> NoticeView {
    plain_notice(
        Level::Error,
        "┐(¯ω¯;)┌"@,
        "...but I need at least one token to snipe with..."@,
    )
}

/// Greets the operator with the account that claims go to.
pub fn welcome(profile: &Profile) -> (notice: Notice)
    ensures
        notice@ == welcome_notice(profile@),
{
    let mut text = String::from_str("If we're lucky you'll get Nitro on ");
    text.append(profile.to_string().as_str());
    text.append("!");
    Notice::plain(Level::Info, "o(»ω«)o", text)
}

impl SessionOrchestrator {
    /// Begins a run with `token_amount` sessions, all of them connecting,
    /// and says so. A run without a session cannot begin: the error to show
    /// is given.
    pub fn start(token_amount: usize) -> (begun: Result<(SessionOrchestrator, Notice), Notice>)
        ensures
            match begun {
                Ok((sessions, notice)) => {
                    &&& token_amount > 0
                    &&& sessions@ == Seq::new(token_amount as nat, |i: int| WorkerPhase::Connecting)
                    &&& notice@ == start_notice(token_amount)
                },
                Err(notice) => token_amount == 0 && notice@ == no_tokens_notice(),
            },
    {
        if token_amount == 0 {
            return Err(
                Notice::plain(
                    Level::Error,
                    "┐(¯ω¯;)┌",
                    String::from_str("...but I need at least one token to snipe with..."),
                ),
            );
        }
        let mut phases: Vec<WorkerPhase> = Vec::new();
        while phases.len() < token_amount
            invariant
                phases.len() <= token_amount,
                phases@ == Seq::new(phases.len() as nat, |i: int| WorkerPhase::Connecting),
            decreases token_amount - phases.len(),
        {
            phases.push(WorkerPhase::Connecting);
            assert(phases@ =~= Seq::new(phases.len() as nat, |i: int| WorkerPhase::Connecting));
        }
        let mut text = String::from_str("I'll be sniping on ");
        text.append(decimal_string(token_amount as u128).as_str());
        text.append(" account(s)! Please wait until I connect to them...");
        Ok((SessionOrchestrator { phases }, Notice::plain(Level::Info, "(o·ω·o)", text)))
    }

    /// How many sessions the run has.
    pub fn len(&self) -> (amount: usize)
        ensures
            amount == self@.len(),
    {
        self.phases.len()
    }

    /// Where session `index` stands; nothing for a number that is not of
    /// this run.
    pub fn phase(&self, index: usize) -> (phase: Option<WorkerPhase>)
        ensures
            phase == if index < self@.len() {
                Some(self@[index as int])
            } else {
                None
            },
    {
        if index < self.phases.len() {
            Some(self.phases[index])
        } else {
            None
        }
    }

    /// Whether every session has ended.
    pub fn all_disconnected(&self) -> (lost: bool)
        ensures
            lost == all_ended(self@),
    {
        let mut index: usize = 0;
        while index < self.phases.len()
            invariant
                index <= self.phases.len(),
                forall|i: int| 0 <= i < index ==> self@[i] == WorkerPhase::Disconnected,
            decreases self.phases.len() - index,
        {
            match self.phases[index] {
                WorkerPhase::Disconnected => {},
                _ => {
                    return false;
                },
            }
            index = index + 1;
        }
        true
    }

    /// Takes the report that session `index` is connected.
    pub fn worker_ready(&mut self, index: usize)
        ensures
            final(self)@ == with_ready(old(self)@, index as int),
    {
        if index < self.phases.len() {
            match self.phases[index] {
                WorkerPhase::Connecting => {
                    self.phases.set(index, WorkerPhase::Ready);
                },
                _ => {},
            }
        }
    }

    /// Takes the report that session `index` has ended, and gives what the
    /// operator is to be told. The other sessions go on. When the last one
    /// has ended, the report closes with the word that all are lost.
    pub fn worker_stopped(&mut self, index: usize, end: WorkerEnd) -> (report: Vec<Notice>)
        ensures
            final(self)@ == with_ended(old(self)@, index as int),
            notices_view(report@) == end_report(old(self)@, index, end),
    {
        let mut report: Vec<Notice> = Vec::new();
        if index >= self.phases.len() {
            assert(notices_view(report@) =~= Seq::empty());
            return report;
        }
        match self.phases[index] {
            WorkerPhase::Disconnected => {
                assert(self@ =~= with_ended(self@, index as int));
                assert(notices_view(report@) =~= Seq::empty());
                return report;
            },
            _ => {},
        }
        self.phases.set(index, WorkerPhase::Disconnected);
        match end {
            WorkerEnd::NoClient => {
                let mut text = String::from_str(
                    "Couldn't instantiate a Discord client for token #",
                );
                text.append(decimal_string(index as u128).as_str());
                text.append(".");
                report.push(Notice::plain(Level::Error, "(-_-;)°°°", text));
            },
            WorkerEnd::ConnectionFailed => {
                let mut text = String::from_str(
                    "Couldn't make a connection to Discord on token #",
                );
                text.append(decimal_string(index as u128).as_str());
                text.append(". Is your token correct?");
                report.push(Notice::plain(Level::Error, "(＃`Д´)", text));
            },
            WorkerEnd::Closed => {},
        }
        assert(notices_view(report@) =~= end_notices(index, end));
        if self.all_disconnected() {
            let ghost before = report@;
            report.push(
                Notice::plain(Level::Error, "(x_x)", String::from_str("Lost all connections.")),
            );
            assert(notices_view(report@) =~= notices_view(before).push(lost_notice()));
        }
        report
    }
}

/// A session that has ended stays ended, whatever is reported of it later.
pub proof fn ended_is_final(phases: Seq<WorkerPhase>, index: int, other: int)
    requires
        0 <= index < phases.len(),
        phases[index] == WorkerPhase::Disconnected,
    ensures
        with_ready(phases, other)[index] == WorkerPhase::Disconnected,
        with_ended(phases, other)[index] == WorkerPhase::Disconnected,
{
}

} // verus!
