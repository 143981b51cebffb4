//! What a query of the game server came back with, and what that says about
//! the server.

use vstd::prelude::*;

verus! {

/// The player counts that a server reports: who is connected, and how many
/// it admits. Nothing is asked of the two: a server may report more players
/// than it admits.
#[derive(Debug, Clone, Copy, PartialEq, Eq, Structural)]
pub struct PlayerCount {
    pub online: u32,
    pub max: u32,
}

/// What one query of the server came back with.
#[derive(Debug, Clone, PartialEq, Eq)]
pub enum QueryReply {
    /// The server answered; `players` is absent where the answer said
    /// nothing of its players.
    Answered { players: Option<PlayerCount> },
    /// The query failed before an answer was read.
    Failed { reason: String },
    /// No answer came within the time allowed.
    TimedOut,
}

/// A `QueryReply` with its text as a sequence of characters.
pub enum QueryReplyView {
    Answered { players: Option<PlayerCount> },
    Failed { reason: Seq<char> },
    TimedOut,
}

impl View for QueryReply {
    type V = QueryReplyView;

    open spec fn view(&self) -> QueryReplyView {
        match *self {
            QueryReply::Answered { players } => QueryReplyView::Answered { players },
            QueryReply::Failed { reason } => QueryReplyView::Failed { reason: reason@ },
            QueryReply::TimedOut => QueryReplyView::TimedOut,
        }
    }
}

/// What a poll found: the server with its player counts, or no server.
#[derive(Debug, Clone, PartialEq, Eq)]
pub enum PollOutcome {
    Reachable { online: u32, max: u32 },
    Unreachable { reason: String },
}

/// A `PollOutcome` with its text as a sequence of characters.
pub enum PollOutcomeView {
    Reachable { online: u32, max: u32 },
    Unreachable { reason: Seq<char> },
}

impl View for PollOutcome {
    type V = PollOutcomeView;

    open spec fn view(&self) -> PollOutcomeView {
        match *self {
            PollOutcome::Reachable { online, max } => PollOutcomeView::Reachable { online, max },
            PollOutcome::Unreachable { reason } => PollOutcomeView::Unreachable { reason: reason@ },
        }
    }
}

/// The reason given where no answer came in time.
pub open spec fn timed_out_reason() -> Seq<char> {
    "the query timed out"@
}

/// The reason given where the server answered without player counts.
pub open spec fn no_players_reason() -> Seq<char> {
    "the answer held no player counts"@
}

/// What `reply` says about the server. Only an answer with player counts
/// makes it reachable; an answer without them counts as no answer, and no
/// count is made up for it.
pub open spec fn classified(reply: QueryReplyView) -> PollOutcomeView {
    match reply {
        QueryReplyView::Answered { players: Some(count) } => PollOutcomeView::Reachable {
            online: count.online,
            max: count.max,
        },
        QueryReplyView::Answered { players: None } => PollOutcomeView::Unreachable {
            reason: no_players_reason(),
        },
        QueryReplyView::Failed { reason } => PollOutcomeView::Unreachable { reason },
        QueryReplyView::TimedOut => PollOutcomeView::Unreachable { reason: timed_out_reason() },
    }
}

/// Tells what `reply` says about the server.
pub fn classify(reply: QueryReply) -> (outcome: PollOutcome)
    ensures
        outcome@ == classified(reply@),
        outcome is Reachable <==> (reply matches QueryReply::Answered { players: Some(_) }),
{
    match reply {
        QueryReply::Answered { players: Some(count) } => PollOutcome::Reachable {
            online: count.online,
            max: count.max,
        },
        QueryReply::Answered { players: None } => PollOutcome::Unreachable {
            reason: "the answer held no player counts".to_owned(),
        },
        QueryReply::Failed { reason } => PollOutcome::Unreachable { reason },
        QueryReply::TimedOut => PollOutcome::Unreachable { reason: "the query timed out".to_owned() },
    }
}

} // verus!
