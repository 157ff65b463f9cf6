use vstd::prelude::*;
use vstd::string::to_string_from_display_ensures_for_str;
use crate::vote::{CommentRate, Tally, VoteRequest, rate_is_valid, recount, tally_of};

verus! {

/// Why serving a vote request failed.
#[derive(Debug, PartialEq, Eq)]
pub enum VoteError {
    /// The rate is neither an upvote nor a downvote.
    InvalidRate,
    /// The store refused a step; its message is kept.
    Store(String),
    /// More vote rows came back than a counter can hold.
    TooManyVotes,
    /// An event arrived that the current step does not wait for.
    UnexpectedEvent,
}

impl VoteError {
    /// The text that answers a request that failed this way.
    pub fn message(&self) -> (m: String)
        ensures
            (*self matches VoteError::Store(s) ==> m == s),
            *self == VoteError::InvalidRate ==> m@ == "Saving rate error: Invalid rate value"@,
            *self == VoteError::TooManyVotes ==> m@ == "Saving rate error: too many votes to count"@,
            *self == VoteError::UnexpectedEvent ==> m@ == "Saving rate error: step out of order"@,
    {
        broadcast use to_string_from_display_ensures_for_str;

        match self {
            VoteError::InvalidRate => "Saving rate error: Invalid rate value".to_string(),
            VoteError::Store(s) => s.clone(),
            VoteError::TooManyVotes => "Saving rate error: too many votes to count".to_string(),
            VoteError::UnexpectedEvent => "Saving rate error: step out of order".to_string(),
        }
    }
}

/// What the caller has to do next on the store, or the final answer.
#[derive(Debug, PartialEq, Eq)]
pub enum VoteAction {
    /// Perform the row change.
    WriteRow(VoteRequest),
    /// Read every vote row of this comment.
    FetchVotes { comment_id: i32 },
    /// Store these counters on the comment.
    WriteTally { comment_id: i32, tally: Tally },
    /// Answer the request; nothing more is to be done.
    Finish(Result<String, VoteError>),
}

/// The outcome of the step that was last asked for.
#[derive(Debug, PartialEq, Eq)]
pub enum VoteEvent {
    RowWritten(Result<(), String>),
    VotesFetched(Result<Vec<CommentRate>, String>),
    TallyWritten(Result<(), String>),
}

#[derive(Clone, Copy, Debug, PartialEq, Eq, Structural)]
pub enum VoteStage {
    AwaitRow,
    AwaitVotes,
    AwaitTally,
    Done,
}

/// One vote request in progress: write the row, recount the comment's votes,
/// store the counters, answer.
#[derive(Debug)]
pub struct VoteSession {
    pub request: VoteRequest,
    pub stage: VoteStage,
}

/// The answer to a request that was served in full.
pub open spec fn success_text(req: VoteRequest) -> Seq<char> {
    match req {
        VoteRequest::Create(_) => "Comment rate was successfully created"@,
        VoteRequest::Update(_) => "Comment rate was successfully updated"@,
        VoteRequest::Delete { .. } => "Comment rate was successfully deleted"@,
    }
}

pub fn success_message(req: &VoteRequest) -> (m: String)
    ensures
        m@ == success_text(*req),
{
    broadcast use to_string_from_display_ensures_for_str;

    match req {
        VoteRequest::Create(_) => "Comment rate was successfully created".to_string(),
        VoteRequest::Update(_) => "Comment rate was successfully updated".to_string(),
        VoteRequest::Delete { .. } => "Comment rate was successfully deleted".to_string(),
    }
}

impl VoteSession {
    /// Starts serving `request`. A request whose rate is not an upvote or a
    /// downvote is answered at once with an error: nothing is written and
    /// nothing is recounted.
    pub fn start(request: VoteRequest) -> (r: (VoteSession, VoteAction))
        ensures
            r.0.request == request,
            !request.has_valid_rate() ==> r.0.stage == VoteStage::Done && r.1 == VoteAction::Finish(
                Err(VoteError::InvalidRate),
            ),
            request.has_valid_rate() ==> r.0.stage == VoteStage::AwaitRow && r.1
                == VoteAction::WriteRow(request),
    {
        let valid = match request {
            VoteRequest::Create(row) => rate_is_valid(row.rate),
            VoteRequest::Update(row) => rate_is_valid(row.rate),
            VoteRequest::Delete { .. } => true,
        };
        if valid {
            (VoteSession { request, stage: VoteStage::AwaitRow }, VoteAction::WriteRow(request))
        } else {
            (
                VoteSession { request, stage: VoteStage::Done },
                VoteAction::Finish(Err(VoteError::InvalidRate)),
            )
        }
    }

    /// Takes the outcome of the last step and says what to do next. Any
    /// store error ends the request with that error; the counters stored are
    /// those of the vote rows that the store handed back.
    pub fn advance(&mut self, event: VoteEvent) -> (a: VoteAction)
        ensures
            final(self).request == old(self).request,
            ({
                let req = old(self).request;
                let c = req.comment();
                match (old(self).stage, event) {
                    (VoteStage::AwaitRow, VoteEvent::RowWritten(Ok(_))) => final(self).stage
                        == VoteStage::AwaitVotes && a == VoteAction::FetchVotes { comment_id: c },
                    (VoteStage::AwaitVotes, VoteEvent::VotesFetched(Ok(rows))) => if rows@.len()
                        <= i32::MAX {
                        final(self).stage == VoteStage::AwaitTally && (a matches VoteAction::WriteTally {
                            comment_id,
                            tally,
                        } && comment_id == c && tally.counts() == recount(rows@, c))
                    } else {
                        final(self).stage == VoteStage::Done && a == VoteAction::Finish(
                            Err(VoteError::TooManyVotes),
                        )
                    },
                    (VoteStage::AwaitTally, VoteEvent::TallyWritten(Ok(_))) => final(self).stage
                        == VoteStage::Done && (a matches VoteAction::Finish(Ok(m)) && m@
                        == success_text(req)),
                    (VoteStage::AwaitRow, VoteEvent::RowWritten(Err(m))) => final(self).stage
                        == VoteStage::Done && a == VoteAction::Finish(Err(VoteError::Store(m))),
                    (VoteStage::AwaitVotes, VoteEvent::VotesFetched(Err(m))) => final(self).stage
                        == VoteStage::Done && a == VoteAction::Finish(Err(VoteError::Store(m))),
                    (VoteStage::AwaitTally, VoteEvent::TallyWritten(Err(m))) => final(self).stage
                        == VoteStage::Done && a == VoteAction::Finish(Err(VoteError::Store(m))),
                    _ => final(self).stage == VoteStage::Done && a == VoteAction::Finish(
                        Err(VoteError::UnexpectedEvent),
                    ),
                }
            }),
    {
        let c = self.request.comment_id();
        match (self.stage, event) {
            (VoteStage::AwaitRow, VoteEvent::RowWritten(Ok(_))) => {
                self.stage = VoteStage::AwaitVotes;
                VoteAction::FetchVotes { comment_id: c }
            },
            (VoteStage::AwaitVotes, VoteEvent::VotesFetched(Ok(rows))) => {
                if rows.len() <= i32::MAX as usize {
                    self.stage = VoteStage::AwaitTally;
                    VoteAction::WriteTally { comment_id: c, tally: tally_of(&rows, c) }
                } else {
                    self.stage = VoteStage::Done;
                    VoteAction::Finish(Err(VoteError::TooManyVotes))
                }
            },
            (VoteStage::AwaitTally, VoteEvent::TallyWritten(Ok(_))) => {
                self.stage = VoteStage::Done;
                VoteAction::Finish(Ok(success_message(&self.request)))
            },
            (VoteStage::AwaitRow, VoteEvent::RowWritten(Err(m))) => {
                self.stage = VoteStage::Done;
                VoteAction::Finish(Err(VoteError::Store(m)))
            },
            (VoteStage::AwaitVotes, VoteEvent::VotesFetched(Err(m))) => {
                self.stage = VoteStage::Done;
                VoteAction::Finish(Err(VoteError::Store(m)))
            },
            (VoteStage::AwaitTally, VoteEvent::TallyWritten(Err(m))) => {
                self.stage = VoteStage::Done;
                VoteAction::Finish(Err(VoteError::Store(m)))
            },
            _ => {
                self.stage = VoteStage::Done;
                VoteAction::Finish(Err(VoteError::UnexpectedEvent))
            },
        }
    }
}

} // verus!
