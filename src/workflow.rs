//! The order of the monthly run: search each mailbox, fetch what matched,
//! ask before sending, send once.
//!
//! The caller performs each [`Step`] against the mail server or the console
//! and hands the outcome back as an [`Event`].
use vstd::prelude::*;
use vstd::string::StrSliceExecFns;
use crate::calendar::{search_query, statement_query, utc_date_at, utc_today, CalendarDate};
use crate::statements::{all_attachments, collect_statements, statements_of, Attachment};

verus! {

/// The mailboxes searched, in this order.
#[derive(Clone, Copy, Debug, PartialEq, Eq, Structural)]
pub enum Mailbox {
    Inbox,
    Trash,
}

/// How many mailboxes a run searches.
pub const MAILBOX_COUNT: usize = 2;

/// The `i`-th mailbox of a run.
pub open spec fn mailbox_at(i: int) -> Mailbox {
    if i == 0 {
        Mailbox::Inbox
    } else {
        Mailbox::Trash
    }
}

/// How a run ended.
#[derive(Clone, Copy, Debug, PartialEq, Eq, Structural)]
pub enum Outcome {
    /// No statement was found; nothing was asked or sent.
    NothingToDo,
    /// The user declined; nothing was sent.
    Declined,
    /// The statements were sent.
    Sent,
}

/// Where a run stands.
#[derive(Clone, Copy, Debug, PartialEq, Eq, Structural)]
pub enum Stage {
    /// Waiting for the search of the `i`-th mailbox.
    Searching(usize),
    /// Waiting for the messages fetched from the `i`-th mailbox.
    Fetching(usize),
    /// Waiting for the user's answer.
    Confirming,
    /// Waiting for the message to go out.
    Sending,
    Done(Outcome),
}

/// What the caller is to do next.
#[derive(Debug)]
pub enum Step {
    /// Search the mailbox with the run's query.
    Search(Mailbox),
    /// Fetch, without marking them read, the messages with these identifiers.
    Fetch(Mailbox, Vec<u32>),
    /// Show the statements found and ask whether to send them.
    Confirm,
    /// Send one message with these attachments.
    Send(Vec<Attachment>),
    /// The run is over.
    Finish(Outcome),
}

/// What came of a step.
#[derive(Debug)]
pub enum Event {
    /// The identifiers of the messages that matched a search.
    Matched(Vec<u32>),
    /// The attachments of each fetched message.
    Fetched(Vec<Vec<Attachment>>),
    /// The line the user typed.
    Answered(String),
    /// The message went out.
    Delivered,
}

/// An answer that accepts: it starts with `y` or `Y`.
pub open spec fn is_yes(answer: Seq<char>) -> bool {
    answer.len() > 0 && (answer[0] == 'y' || answer[0] == 'Y')
}

/// Whether `answer` accepts.
pub fn is_affirmative(answer: &str) -> (r: bool)
    ensures
        r == is_yes(answer@),
{
    if answer.is_empty() {
        false
    } else {
        let c = answer.get_char(0);
        c == 'y' || c == 'Y'
    }
}

/// Whether an event is the one a stage waits for.
pub open spec fn fits(stage: Stage, event: Event) -> bool {
    match (stage, event) {
        (Stage::Searching(_), Event::Matched(_)) => true,
        (Stage::Fetching(_), Event::Fetched(_)) => true,
        (Stage::Confirming, Event::Answered(_)) => true,
        (Stage::Sending, Event::Delivered) => true,
        _ => false,
    }
}

/// A run.
pub struct Workflow {
    /// The search for statements, the same in every mailbox.
    pub query: String,
    pub stage: Stage,
    /// The statements found so far.
    pub found: Vec<Attachment>,
}

impl Workflow {
    pub open spec fn wf(&self) -> bool {
        match self.stage {
            Stage::Searching(i) => i < MAILBOX_COUNT,
            Stage::Fetching(i) => i < MAILBOX_COUNT,
            _ => true,
        }
    }

    /// After the `i`-th mailbox is done, `self` and `r` go on to the next
    /// mailbox; after the last one, to the question, or to the end when
    /// nothing was found.
    pub open spec fn moved_on(&self, i: int, r: Option<Step>) -> bool {
        if i + 1 < MAILBOX_COUNT {
            &&& self.stage == Stage::Searching((i + 1) as usize)
            &&& r == Some(Step::Search(mailbox_at(i + 1)))
        } else if self.found@.len() == 0 {
            &&& self.stage == Stage::Done(Outcome::NothingToDo)
            &&& r == Some(Step::Finish(Outcome::NothingToDo))
        } else {
            &&& self.stage == Stage::Confirming
            &&& r == Some(Step::Confirm)
        }
    }

    /// Starts the run for the month that `today` falls in: first the search
    /// of the inbox.
    pub fn start(today: &CalendarDate) -> (r: (Workflow, Step))
        requires
            today.wf(),
        ensures
            r.0.wf(),
            r.0.query@ == statement_query(today.first_of_month_spec()),
            r.0.stage == Stage::Searching(0),
            r.0.found@.len() == 0,
            r.1 == Step::Search(Mailbox::Inbox),
    {
        let w = Workflow { query: search_query(today), stage: Stage::Searching(0), found: Vec::new() };
        (w, Step::Search(Mailbox::Inbox))
    }

    /// Starts the run for the current month, by the clock's date in UTC:
    /// the query looks back to the first of the month of the instant the
    /// clock read. `None` where the clock gives no date.
    pub fn start_this_month() -> (r: Option<(Workflow, Step)>)
        ensures
            r matches Some(started) ==> {
                &&& started.0.wf()
                &&& exists|seconds: int|
                    0 <= seconds && started.0.query@ == statement_query(
                        (#[trigger] utc_date_at(seconds)).first_of_month_spec(),
                    )
                &&& started.0.stage == Stage::Searching(0)
                &&& started.0.found@.len() == 0
                &&& started.1 == Step::Search(Mailbox::Inbox)
            },
    {
        match utc_today() {
            Some(today) => Some(Self::start(&today)),
            None => None,
        }
    }

    fn mailbox(i: usize) -> (r: Mailbox)
        ensures
            r == mailbox_at(i as int),
    {
        if i == 0 {
            Mailbox::Inbox
        } else {
            Mailbox::Trash
        }
    }

    /// Leaves the `i`-th mailbox.
    fn move_on(&mut self, i: usize) -> (r: Option<Step>)
        requires
            i < MAILBOX_COUNT,
        ensures
            final(self).wf(),
            final(self).query == old(self).query,
            final(self).found == old(self).found,
            final(self).moved_on(i as int, r),
    {
        if i + 1 < MAILBOX_COUNT {
            self.stage = Stage::Searching(i + 1);
            Some(Step::Search(Self::mailbox(i + 1)))
        } else if self.found.len() == 0 {
            self.stage = Stage::Done(Outcome::NothingToDo);
            Some(Step::Finish(Outcome::NothingToDo))
        } else {
            self.stage = Stage::Confirming;
            Some(Step::Confirm)
        }
    }

    /// Takes in what came of the last step and says what to do next. An
    /// event that the stage does not wait for changes nothing and gives `None`.
    pub fn advance(&mut self, event: Event) -> (r: Option<Step>)
        requires
            old(self).wf(),
        ensures
            final(self).wf(),
            final(self).query == old(self).query,
            r is Some <==> fits(old(self).stage, event),
            !fits(old(self).stage, event) ==> *final(self) == *old(self),
            // a search without matches fetches nothing
            old(self).stage is Searching && event is Matched && event->Matched_0@.len() == 0 ==> {
                &&& final(self).found == old(self).found
                &&& final(self).moved_on(old(self).stage->Searching_0 as int, r)
                &&& !(r matches Some(Step::Fetch(_, _)))
            },
            // only an accepting answer sends, and once sent a run asks no more
            r matches Some(Step::Send(_)) ==> {
                &&& old(self).stage == Stage::Confirming
                &&& event matches Event::Answered(answer) && is_yes(answer@)
                &&& final(self).stage == Stage::Sending
            },
            old(self).stage is Sending || old(self).stage is Done ==> {
                ||| final(self).stage is Sending
                ||| final(self).stage is Done
            },
            old(self).stage is Searching && event is Matched && event->Matched_0@.len() > 0 ==> {
                let i = old(self).stage->Searching_0;
                &&& final(self).found == old(self).found
                &&& final(self).stage == Stage::Fetching(i)
                &&& r == Some(Step::Fetch(mailbox_at(i as int), event->Matched_0))
            },
            old(self).stage is Fetching && event is Fetched ==> {
                &&& final(self).found@ == old(self).found@ + statements_of(
                    all_attachments(event->Fetched_0@),
                )
                &&& final(self).moved_on(old(self).stage->Fetching_0 as int, r)
            },
            old(self).stage is Confirming && event is Answered && is_yes(event->Answered_0@) ==> {
                &&& final(self).stage == Stage::Sending
                &&& final(self).found@.len() == 0
                &&& r matches Some(Step::Send(v)) && v@ == old(self).found@
            },
            old(self).stage is Confirming && event is Answered && !is_yes(event->Answered_0@) ==> {
                &&& final(self).found == old(self).found
                &&& final(self).stage == Stage::Done(Outcome::Declined)
                &&& r == Some(Step::Finish(Outcome::Declined))
            },
            old(self).stage is Sending && event is Delivered ==> {
                &&& final(self).found == old(self).found
                &&& final(self).stage == Stage::Done(Outcome::Sent)
                &&& r == Some(Step::Finish(Outcome::Sent))
            },
    {
        match (self.stage, event) {
            (Stage::Searching(i), Event::Matched(ids)) => {
                if ids.len() == 0 {
                    self.move_on(i)
                } else {
                    self.stage = Stage::Fetching(i);
                    Some(Step::Fetch(Self::mailbox(i), ids))
                }
            },
            (Stage::Fetching(i), Event::Fetched(messages)) => {
                let mut chosen = collect_statements(messages);
                self.found.append(&mut chosen);
                self.move_on(i)
            },
            (Stage::Confirming, Event::Answered(answer)) => {
                if is_affirmative(answer.as_str()) {
                    let mut sent: Vec<Attachment> = Vec::new();
                    std::mem::swap(&mut sent, &mut self.found);
                    self.stage = Stage::Sending;
                    Some(Step::Send(sent))
                } else {
                    self.stage = Stage::Done(Outcome::Declined);
                    Some(Step::Finish(Outcome::Declined))
                }
            },
            (Stage::Sending, Event::Delivered) => {
                self.stage = Stage::Done(Outcome::Sent);
                Some(Step::Finish(Outcome::Sent))
            },
            _ => None,
        }
    }
}

} // verus!
