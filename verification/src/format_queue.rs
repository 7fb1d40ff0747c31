//! The answer to a format button: whether the button and its prompt are still valid,
//! whether the user can queue jobs, queueing the download with its tracking message,
//! and the acknowledgement.
use vstd::prelude::*;
use crate::incoming::{callback_format, callback_format_spec};
use crate::job::YtDlpFormat;
use crate::replies::{format_ack, job_readiness, readiness_spec, Lookup};
use crate::status::{status_text, status_text_spec, JobSummary};

verus! {

/// The answer when the format prompt is no longer pending.
pub open spec fn format_expired_text() -> Seq<char> {
    "This prompt expired. Send the link again."@
}

/// The acknowledgement of a format button: whether the job was queued.
pub open spec fn format_ack_text(queued: bool) -> Seq<char> {
    if queued {
        "Queued."@
    } else {
        "Not queued \u{2014} complete /connect and /folder first."@
    }
}

/// The edited prompt once a format was chosen.
pub open spec fn format_chosen_text() -> Seq<char> {
    "Queued for download."@
}

/// Where the handling of a format button stands.
#[derive(Debug)]
pub enum FormatStage {
    /// The button was not looked at yet.
    Checking,
    /// Taking the pending link out of the store.
    Taking { format: YtDlpFormat },
    /// Looking up whether the user can queue jobs.
    CheckingReadiness { url: String, format: YtDlpFormat },
    /// Telling the user why nothing was queued.
    Refusing,
    /// Inserting the job.
    Inserting,
    /// Sending the message that tracks the job.
    Notifying,
    /// Storing the id of that message.
    Recording,
    /// Answering the button.
    Answering,
    /// Editing the prompt.
    Editing,
    /// The last step is under way.
    Closing,
    /// Nothing is left to do.
    Finished,
}

/// What the outside work of the last step reported.
#[derive(Debug)]
pub enum FormatEvent {
    Done,
    /// The pending link, if it is still pending.
    Pending(Option<String>),
    /// Whether the user's Google credentials and upload folder are stored.
    Readiness { credentials: Lookup, folder: Lookup },
    /// The job row just inserted.
    Inserted(JobSummary),
    /// The id of the tracking message sent.
    MessageSent(i64),
}

/// The outside work of the next step.
#[derive(Debug)]
pub enum FormatAction {
    TakePending,
    CheckReadiness,
    /// Send this message to the chat.
    Notify { message: String },
    InsertJob { url: String, format: YtDlpFormat },
    SendStatus { status: String },
    SetStatusMessage { message_id: i64 },
    /// Answer the button press, with a text or without.
    Answer { reply: Option<String> },
    /// Edit the prompt message, ignoring failures.
    Edit { text: String },
    Finish,
}

/// How far a stage is along the handling; every step moves to a later stage, so the
/// handling of a button ends.
pub open spec fn format_rank(s: FormatStage) -> nat {
    match s {
        FormatStage::Checking => 0,
        FormatStage::Taking { .. } => 1,
        FormatStage::CheckingReadiness { .. } => 2,
        FormatStage::Refusing => 3,
        FormatStage::Inserting => 3,
        FormatStage::Notifying => 4,
        FormatStage::Recording => 5,
        FormatStage::Answering => 6,
        FormatStage::Editing => 7,
        FormatStage::Closing => 8,
        FormatStage::Finished => 9,
    }
}

/// Handles one press of a format button.
pub struct FormatQueueFlow {
    key: String,
    stage: FormatStage,
}

impl FormatQueueFlow {
    /// The format key the button carried.
    pub closed spec fn key_spec(&self) -> Seq<char> {
        self.key@
    }

    /// The stage.
    pub closed spec fn stage_spec(&self) -> FormatStage {
        self.stage
    }

    /// Handling of a button that carried the format key `key`.
    pub fn new(key: &str) -> (res: Self)
        ensures
            res.key_spec() == key@,
            res.stage_spec() is Checking,
    {
        FormatQueueFlow { key: key.to_owned(), stage: FormatStage::Checking }
    }

    /// The first step: an unknown format key is answered without a text; otherwise the
    /// pending link is taken.
    pub fn start(&mut self) -> (res: FormatAction)
        requires
            old(self).stage_spec() is Checking,
        ensures
            final(self).key_spec() == old(self).key_spec(),
            match callback_format_spec(old(self).key_spec()) {
                None => res == (FormatAction::Answer { reply: None })
                    && final(self).stage_spec() is Closing,
                Some(format) => res is TakePending && final(self).stage_spec() == (
                FormatStage::Taking { format }),
            },
    {
        match callback_format(self.key.as_str()) {
            None => {
                self.stage = FormatStage::Closing;
                FormatAction::Answer { reply: None }
            },
            Some(format) => {
                self.stage = FormatStage::Taking { format };
                FormatAction::TakePending
            },
        }
    }

    /// Whether `event` reports the step the flow is at.
    pub open spec fn accepts(&self, event: FormatEvent) -> bool {
        match self.stage_spec() {
            FormatStage::Checking => false,
            FormatStage::Taking { .. } => event is Pending,
            FormatStage::CheckingReadiness { .. } => event is Readiness,
            FormatStage::Inserting => event is Inserted,
            FormatStage::Notifying => event is MessageSent,
            FormatStage::Finished => false,
            _ => event is Done,
        }
    }

    /// Decides the next step from what the last one reported.
    pub fn next(&mut self, event: FormatEvent) -> (res: FormatAction)
        requires
            old(self).accepts(event),
        ensures
            final(self).key_spec() == old(self).key_spec(),
            format_rank(final(self).stage_spec()) > format_rank(old(self).stage_spec()),
            match (old(self).stage_spec(), event) {
                (FormatStage::Taking { format }, FormatEvent::Pending(p)) => match p {
                    None => (res matches FormatAction::Answer { reply: Some(t) } && t@
                        == format_expired_text()) && final(self).stage_spec() is Closing,
                    Some(url) => res is CheckReadiness && final(self).stage_spec() == (
                    FormatStage::CheckingReadiness { url, format }),
                },
                (FormatStage::CheckingReadiness { url, format }, FormatEvent::Readiness {
                    credentials,
                    folder,
                }) => match readiness_spec(credentials, folder) {
                    Err(m) => (res matches FormatAction::Notify { message } && message@ == m)
                        && final(self).stage_spec() is Refusing,
                    Ok(_) => res == (FormatAction::InsertJob { url, format })
                        && final(self).stage_spec() is Inserting,
                },
                (FormatStage::Refusing, FormatEvent::Done) => (res matches FormatAction::Answer {
                    reply: Some(t),
                } && t@ == format_ack_text(false)) && final(self).stage_spec() is Answering,
                (FormatStage::Inserting, FormatEvent::Inserted(row)) => (
                res matches FormatAction::SendStatus { status } && status@ == status_text_spec(row))
                    && final(self).stage_spec() is Notifying,
                (FormatStage::Notifying, FormatEvent::MessageSent(message_id)) => res == (
                FormatAction::SetStatusMessage { message_id }) && final(self).stage_spec() is Recording,
                (FormatStage::Recording, FormatEvent::Done) => (res matches FormatAction::Answer {
                    reply: Some(t),
                } && t@ == format_ack_text(true)) && final(self).stage_spec() is Answering,
                (FormatStage::Answering, FormatEvent::Done) => (res matches FormatAction::Edit {
                    text,
                } && text@ == format_chosen_text()) && final(self).stage_spec() is Editing,
                (FormatStage::Editing, FormatEvent::Done) => res is Finish
                    && final(self).stage_spec() is Finished,
                (FormatStage::Closing, FormatEvent::Done) => res is Finish
                    && final(self).stage_spec() is Finished,
                _ => true,
            },
    {
        let mut stage = FormatStage::Finished;
        std::mem::swap(&mut stage, &mut self.stage);
        match (stage, event) {
            (FormatStage::Taking { format }, FormatEvent::Pending(p)) => match p {
                None => {
                    self.stage = FormatStage::Closing;
                    FormatAction::Answer {
                        reply: Some("This prompt expired. Send the link again.".to_owned()),
                    }
                },
                Some(url) => {
                    self.stage = FormatStage::CheckingReadiness { url, format };
                    FormatAction::CheckReadiness
                },
            },
            (FormatStage::CheckingReadiness { url, format }, FormatEvent::Readiness { credentials, folder }) => {
                match job_readiness(credentials, folder) {
                    Err(m) => {
                        self.stage = FormatStage::Refusing;
                        FormatAction::Notify { message: m.to_owned() }
                    },
                    Ok(_) => {
                        self.stage = FormatStage::Inserting;
                        FormatAction::InsertJob { url, format }
                    },
                }
            },
            (FormatStage::Refusing, FormatEvent::Done) => {
                self.stage = FormatStage::Answering;
                FormatAction::Answer { reply: Some(format_ack(false).to_owned()) }
            },
            (FormatStage::Inserting, FormatEvent::Inserted(row)) => {
                self.stage = FormatStage::Notifying;
                FormatAction::SendStatus { status: status_text(&row) }
            },
            (FormatStage::Notifying, FormatEvent::MessageSent(message_id)) => {
                self.stage = FormatStage::Recording;
                FormatAction::SetStatusMessage { message_id }
            },
            (FormatStage::Recording, FormatEvent::Done) => {
                self.stage = FormatStage::Answering;
                FormatAction::Answer { reply: Some(format_ack(true).to_owned()) }
            },
            (FormatStage::Answering, FormatEvent::Done) => {
                self.stage = FormatStage::Editing;
                FormatAction::Edit { text: "Queued for download.".to_owned() }
            },
            (_, _) => FormatAction::Finish,
        }
    }
}

} // verus!
