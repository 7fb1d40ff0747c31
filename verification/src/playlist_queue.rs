//! The answer to a playlist confirmation: whether the prompt is still pending, whether it
//! was accepted, whether the user can queue jobs, and queueing one job per entry with
//! its progress and tracking message.
use vstd::prelude::*;
use crate::incoming::playlist_accepted;
use crate::job::YtDlpFormat;
use crate::replies::{
    job_readiness, playlist_item_progress, playlist_queued_ack, playlist_queued_note,
    readiness_spec, Lookup,
};
use crate::status::{status_text, status_text_spec, JobSummary};
use crate::text::signed_decimal;

verus! {

/// The answer when the prompt is no longer pending.
pub open spec fn playlist_expired_text() -> Seq<char> {
    "This prompt expired. Send the playlist link again."@
}

/// The edited prompt when the playlist was declined.
pub open spec fn playlist_cancelled_text() -> Seq<char> {
    "Playlist download cancelled."@
}

/// Where the handling of a playlist answer stands.
#[derive(Debug)]
pub enum QueueStage {
    /// Taking the pending playlist out of the store.
    Taking,
    /// Looking up whether the user can queue jobs.
    CheckingReadiness { entries: Vec<String> },
    /// Inserting the job of entry `index`.
    Inserting { entries: Vec<String>, index: usize },
    /// Recording the progress of entry `index`; `text` tracks its job.
    Progressing { entries: Vec<String>, index: usize, text: String },
    /// Sending the message that tracks the job of entry `index`.
    Notifying { entries: Vec<String>, index: usize },
    /// Storing the id of that message.
    Recording { entries: Vec<String>, index: usize },
    /// The button was answered; the prompt is edited to `text` next.
    Editing { text: String },
    /// The last step is under way.
    Closing,
    /// Nothing is left to do.
    Finished,
}

/// What the outside work of the last step reported.
#[derive(Debug)]
pub enum QueueEvent {
    Done,
    /// The pending playlist's entries, if it is still pending.
    Pending(Option<Vec<String>>),
    /// Whether the user's Google credentials and upload folder are stored.
    Readiness { credentials: Lookup, folder: Lookup },
    /// The job row just inserted.
    Inserted(JobSummary),
    /// The id of the tracking message sent.
    MessageSent(i64),
}

/// The outside work of the next step.
#[derive(Debug)]
pub enum QueueAction {
    TakePending,
    CheckReadiness,
    /// Answer the button press, with a text or without.
    Answer { text: Option<String> },
    /// Edit the prompt message, ignoring failures.
    Edit { text: String },
    InsertJob { url: String, format: YtDlpFormat },
    UpdateProgress { current: i32, total: i32 },
    SendStatus { text: String },
    SetStatusMessage { message_id: i64 },
    Finish,
}

/// Handles one answer to a playlist prompt.
pub struct PlaylistQueueFlow {
    accepted: bool,
    stage: QueueStage,
}

impl PlaylistQueueFlow {
    /// Whether the answer accepts the playlist.
    pub closed spec fn accepted_spec(&self) -> bool {
        self.accepted
    }

    /// The stage.
    pub closed spec fn stage_spec(&self) -> QueueStage {
        self.stage
    }

    /// An upper bound on the steps left; every step lowers it, so the handling of an
    /// answer ends.
    pub open spec fn work_left(&self) -> int {
        match self.stage_spec() {
            QueueStage::Taking => 4 * i32::MAX + 4,
            QueueStage::CheckingReadiness { entries } => (4 * entries@.len() + 3) as int,
            QueueStage::Inserting { entries, index } => 4 * (entries@.len() - index - 1) + 6,
            QueueStage::Progressing { entries, index, .. } => 4 * (entries@.len() - index - 1) + 5,
            QueueStage::Notifying { entries, index } => 4 * (entries@.len() - index - 1) + 4,
            QueueStage::Recording { entries, index } => 4 * (entries@.len() - index - 1) + 3,
            QueueStage::Editing { .. } => 2,
            QueueStage::Closing => 1,
            QueueStage::Finished => 0,
        }
    }

    /// The entries fit the progress counters and the entry being queued exists.
    #[verifier::type_invariant]
    closed spec fn well_formed(&self) -> bool {
        match self.stage {
            QueueStage::CheckingReadiness { entries } => entries@.len() <= i32::MAX,
            QueueStage::Inserting { entries, index } => index < entries@.len() <= i32::MAX,
            QueueStage::Progressing { entries, index, .. } => index < entries@.len() <= i32::MAX,
            QueueStage::Notifying { entries, index } => index < entries@.len() <= i32::MAX,
            QueueStage::Recording { entries, index } => index < entries@.len() <= i32::MAX,
            _ => true,
        }
    }

    /// Handling of the answer `answer` (`"yes"` accepts).
    pub fn new(answer: &str) -> (res: Self)
        ensures
            res.accepted_spec() == (answer@ == "yes"@),
            res.stage_spec() is Taking,
    {
        PlaylistQueueFlow { accepted: playlist_accepted(answer), stage: QueueStage::Taking }
    }

    /// The first step: take the pending playlist.
    pub fn start(&self) -> (res: QueueAction)
        ensures
            res is TakePending,
    {
        QueueAction::TakePending
    }

    /// Whether `event` reports the step the flow is at.
    pub open spec fn accepts(&self, event: QueueEvent) -> bool {
        match self.stage_spec() {
            QueueStage::Taking => event matches QueueEvent::Pending(p) && (p matches Some(
                entries,
            ) ==> entries@.len() <= i32::MAX),
            QueueStage::CheckingReadiness { .. } => event is Readiness,
            QueueStage::Inserting { .. } => event is Inserted,
            QueueStage::Notifying { .. } => event is MessageSent,
            QueueStage::Finished => false,
            _ => event is Done,
        }
    }

    /// The step after the tracking message of entry `index` was recorded: the next
    /// entry's job, or the answer once all are queued.
    fn after_item(entries: Vec<String>, index: usize) -> (res: (QueueAction, QueueStage))
        requires
            index < entries@.len() <= i32::MAX,
        ensures
            if index + 1 < entries@.len() {
                (res.0 matches QueueAction::InsertJob { url, format } && url == entries@[index
                    + 1] && format == YtDlpFormat::Best) && res.1 == (QueueStage::Inserting {
                    entries,
                    index: (index + 1) as usize,
                })
            } else {
                (res.0 matches QueueAction::Answer { text: Some(t) } && t@ == "Queued "@
                    + signed_decimal(entries@.len() as int) + " items."@) && (res.1 matches QueueStage::Editing {
                    text,
                } && text@ == "Queued "@ + signed_decimal(entries@.len() as int)
                    + " playlist items."@)
            },
    {
        let next = index + 1;
        if next < entries.len() {
            let url = entries[next].clone();
            (QueueAction::InsertJob { url, format: YtDlpFormat::Best }, QueueStage::Inserting { entries, index: next })
        } else {
            let total = entries.len() as i32;
            (
                QueueAction::Answer { text: Some(playlist_queued_ack(total)) },
                QueueStage::Editing { text: playlist_queued_note(total) },
            )
        }
    }

    /// Decides the next step from what the last one reported.
    pub fn next(&mut self, event: QueueEvent) -> (res: QueueAction)
        requires
            old(self).accepts(event),
        ensures
            final(self).accepted_spec() == old(self).accepted_spec(),
            0 <= final(self).work_left() < old(self).work_left(),
            match (old(self).stage_spec(), event) {
                (QueueStage::Taking, QueueEvent::Pending(p)) => match p {
                    None => (res matches QueueAction::Answer { text: Some(t) } && t@
                        == playlist_expired_text()) && final(self).stage_spec() is Closing,
                    Some(entries) => if old(self).accepted_spec() {
                        res is CheckReadiness && final(self).stage_spec() == (
                        QueueStage::CheckingReadiness { entries })
                    } else {
                        res == (QueueAction::Answer { text: None }) && (final(self).stage_spec() matches QueueStage::Editing { text } && text@
                            == playlist_cancelled_text())
                    },
                },
                (QueueStage::CheckingReadiness { entries }, QueueEvent::Readiness { credentials, folder }) =>
                    match readiness_spec(credentials, folder) {
                    Err(m) => (res matches QueueAction::Answer { text: Some(t) } && t@ == m) && (
                    final(self).stage_spec() matches QueueStage::Editing { text } && text@ == m),
                    Ok(_) => if entries@.len() == 0 {
                        (res matches QueueAction::Answer { text: Some(t) } && t@
                            == "Queued 0 items."@) && (final(self).stage_spec() matches QueueStage::Editing {
                            text,
                        } && text@ == "Queued 0 playlist items."@)
                    } else {
                        (res matches QueueAction::InsertJob { url, format } && url == entries@[0]
                            && format == YtDlpFormat::Best) && final(self).stage_spec() == (
                        QueueStage::Inserting { entries, index: 0 })
                    },
                },
                (QueueStage::Inserting { entries, index }, QueueEvent::Inserted(row)) => res == (
                QueueAction::UpdateProgress {
                    current: (index + 1) as i32,
                    total: entries@.len() as i32,
                }) && (final(self).stage_spec() matches QueueStage::Progressing {
                    entries: e,
                    index: i,
                    text,
                } && e == entries && i == index && text@ == status_text_spec(row)),
                (QueueStage::Progressing { entries, index, text }, QueueEvent::Done) => res == (
                QueueAction::SendStatus { text }) && final(self).stage_spec() == (
                QueueStage::Notifying { entries, index }),
                (QueueStage::Notifying { entries, index }, QueueEvent::MessageSent(message_id)) =>
                    res == (QueueAction::SetStatusMessage { message_id }) && final(self).stage_spec() == (QueueStage::Recording { entries, index }),
                (QueueStage::Recording { entries, index }, QueueEvent::Done) => if index + 1
                    < entries@.len() {
                    (res matches QueueAction::InsertJob { url, format } && url == entries@[index
                        + 1] && format == YtDlpFormat::Best) && final(self).stage_spec() == (
                    QueueStage::Inserting { entries, index: (index + 1) as usize })
                } else {
                    (res matches QueueAction::Answer { text: Some(t) } && t@ == "Queued "@
                        + signed_decimal(entries@.len() as int) + " items."@) && (final(self).stage_spec() matches QueueStage::Editing { text } && text@ == "Queued "@
                        + signed_decimal(entries@.len() as int) + " playlist items."@)
                },
                (QueueStage::Editing { text }, QueueEvent::Done) => res == (QueueAction::Edit {
                    text,
                }) && final(self).stage_spec() is Closing,
                (QueueStage::Closing, QueueEvent::Done) => res is Finish && final(self).stage_spec() is Finished,
                _ => true,
            },
    {
        proof {
            use_type_invariant(&*self);
        }
        let mut stage = QueueStage::Finished;
        std::mem::swap(&mut stage, &mut self.stage);
        match (stage, event) {
            (QueueStage::Taking, QueueEvent::Pending(p)) => match p {
                None => {
                    self.stage = QueueStage::Closing;
                    QueueAction::Answer {
                        text: Some("This prompt expired. Send the playlist link again.".to_owned()),
                    }
                },
                Some(entries) => {
                    if self.accepted {
                        self.stage = QueueStage::CheckingReadiness { entries };
                        QueueAction::CheckReadiness
                    } else {
                        self.stage = QueueStage::Editing { text: "Playlist download cancelled.".to_owned() };
                        QueueAction::Answer { text: None }
                    }
                },
            },
            (QueueStage::CheckingReadiness { entries }, QueueEvent::Readiness { credentials, folder }) => {
                match job_readiness(credentials, folder) {
                    Err(m) => {
                        self.stage = QueueStage::Editing { text: m.to_owned() };
                        QueueAction::Answer { text: Some(m.to_owned()) }
                    },
                    Ok(_) => {
                        if entries.len() == 0 {
                            let ack = playlist_queued_ack(0);
                            let note = playlist_queued_note(0);
                            proof {
                                reveal_strlit("Queued ");
                                reveal_strlit(" items.");
                                reveal_strlit(" playlist items.");
                                reveal_strlit("Queued 0 items.");
                                reveal_strlit("Queued 0 playlist items.");
                                assert(signed_decimal(0) =~= seq!['0']);
                                assert(ack@ =~= "Queued 0 items."@);
                                assert(note@ =~= "Queued 0 playlist items."@);
                            }
                            self.stage = QueueStage::Editing { text: note };
                            QueueAction::Answer { text: Some(ack) }
                        } else {
                            let url = entries[0].clone();
                            self.stage = QueueStage::Inserting { entries, index: 0 };
                            QueueAction::InsertJob { url, format: YtDlpFormat::Best }
                        }
                    },
                }
            },
            (QueueStage::Inserting { entries, index }, QueueEvent::Inserted(row)) => {
                let (current, total) = playlist_item_progress(index, entries.len());
                let text = status_text(&row);
                self.stage = QueueStage::Progressing { entries, index, text };
                QueueAction::UpdateProgress { current, total }
            },
            (QueueStage::Progressing { entries, index, text }, QueueEvent::Done) => {
                self.stage = QueueStage::Notifying { entries, index };
                QueueAction::SendStatus { text }
            },
            (QueueStage::Notifying { entries, index }, QueueEvent::MessageSent(message_id)) => {
                self.stage = QueueStage::Recording { entries, index };
                QueueAction::SetStatusMessage { message_id }
            },
            (QueueStage::Recording { entries, index }, QueueEvent::Done) => {
                let (action, stage) = Self::after_item(entries, index);
                self.stage = stage;
                action
            },
            (QueueStage::Editing { text }, QueueEvent::Done) => {
                self.stage = QueueStage::Closing;
                QueueAction::Edit { text }
            },
            (_, _) => QueueAction::Finish,
        }
    }
}

} // verus!
