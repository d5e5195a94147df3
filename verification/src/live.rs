//! Keeping the archive current and answering inline queries.
//!
//! The caller takes one update at a time from the feed, reduces it to what
//! is read here, and sends what comes back.

use crate::record::{MessageRecord, RawMessage, RawMessageView, SearchResult};
use crate::stats::UserStat;
use crate::store::{Database, StoreError, StoreOp};
use crate::{INLINE_LIMIT, USER_STATS_ID};
use vstd::prelude::*;

verus! {

/// The one chat that is mirrored.
#[derive(Debug, Clone, Copy, PartialEq, Eq, Structural)]
pub struct Target {
    /// The chat as the feed names it on a new message.
    pub chat: i64,
    /// The channel as the feed names it on a deletion.
    pub channel: i64,
}

/// One update from the feed, reduced to what is read of it.
#[derive(Debug, Clone)]
pub enum Update {
    /// A message appeared in `chat`.
    NewMessage { chat: i64, message: RawMessage },
    /// The messages `messages` went from `channel`, where the feed names one.
    MessageDeleted { channel: Option<i64>, messages: Vec<i32> },
    /// The user `sender` typed `text` after the bot's name.
    InlineQuery { sender: i64, text: String },
    /// The user `sender` sent the result `result_id` of an earlier answer.
    InlineSend { sender: i64, result_id: String },
    /// Anything else.
    Other,
}

/// What an [`Update`] holds.
pub enum UpdateView {
    NewMessage { chat: i64, message: RawMessageView },
    MessageDeleted { channel: Option<i64>, messages: Seq<i32> },
    InlineQuery { sender: i64, text: Seq<char> },
    InlineSend { sender: i64, result_id: Seq<char> },
    Other,
}

impl View for Update {
    type V = UpdateView;

    open spec fn view(&self) -> UpdateView {
        match self {
            Update::NewMessage { chat, message } => UpdateView::NewMessage {
                chat: *chat,
                message: message@,
            },
            Update::MessageDeleted { channel, messages } => UpdateView::MessageDeleted {
                channel: *channel,
                messages: messages@,
            },
            Update::InlineQuery { sender, text } => UpdateView::InlineQuery {
                sender: *sender,
                text: text@,
            },
            Update::InlineSend { sender, result_id } => UpdateView::InlineSend {
                sender: *sender,
                result_id: result_id@,
            },
            Update::Other => UpdateView::Other,
        }
    }
}

/// What an update calls for.
#[derive(Debug, Clone, Copy, PartialEq, Eq, Structural)]
pub enum Route {
    /// Store the new message.
    Store,
    /// Remove the deleted messages.
    Remove,
    /// Answer with a random sample.
    Sample,
    /// Answer with the messages that hold the query's text.
    Search,
    /// Count one more sent result for the sender.
    Count,
    /// The user chose the statistics entry: nothing is counted.
    StatsChosen,
    /// The update is about another chat: it is dropped.
    Foreign,
    /// No kind that is handled: it is dropped.
    Ignored,
}

/// Where `update` goes when `target` is mirrored.
pub open spec fn routed(target: Target, update: UpdateView) -> Route {
    match update {
        UpdateView::NewMessage { chat, .. } => if chat == target.chat {
            Route::Store
        } else {
            Route::Foreign
        },
        UpdateView::MessageDeleted { channel, .. } => if channel == Some(target.channel) {
            Route::Remove
        } else {
            Route::Foreign
        },
        UpdateView::InlineQuery { text, .. } => if text.len() == 0 {
            Route::Sample
        } else {
            Route::Search
        },
        UpdateView::InlineSend { result_id, .. } => if result_id == USER_STATS_ID@ {
            Route::StatsChosen
        } else {
            Route::Count
        },
        UpdateView::Other => Route::Ignored,
    }
}

/// Decides what an update calls for.
pub fn route(target: &Target, update: &Update) -> (r: Route)
    ensures
        r == routed(*target, update@),
{
    match update {
        Update::NewMessage { chat, .. } => if *chat == target.chat {
            Route::Store
        } else {
            Route::Foreign
        },
        Update::MessageDeleted { channel, .. } => match channel {
            Some(c) => if *c == target.channel {
                Route::Remove
            } else {
                Route::Foreign
            },
            None => Route::Foreign,
        },
        Update::InlineQuery { text, .. } => if text.as_str().is_empty() {
            Route::Sample
        } else {
            Route::Search
        },
        Update::InlineSend { result_id, .. } => {
            let stats_id = USER_STATS_ID.to_owned();
            if *result_id == stats_id {
                Route::StatsChosen
            } else {
                Route::Count
            }
        },
        Update::Other => Route::Ignored,
    }
}

/// What was done about an update.
#[derive(Debug, Clone)]
pub enum Handled {
    /// The message `id` was stored.
    Stored { id: i32 },
    /// The deletion removed `count` rows.
    Deleted { count: usize },
    /// The answer to an inline query: the sender's standing, where the
    /// sender has one, to go in front of the rows.
    Answer { stat: Option<UserStat>, results: Vec<SearchResult> },
    /// One more sent result was counted for `user`.
    Counted { user: i64 },
    /// `user` chose the statistics entry; nothing was counted.
    StatsRequested { user: i64 },
    /// The update was about another chat.
    Foreign,
    /// The update was of no kind that is handled.
    Ignored,
}

/// Whether `r` is the outcome of answering an inline query of `sender` with
/// rows found by the operation `op`.
pub open spec fn is_answer_for(r: Result<Handled, StoreError>, sender: i64, op: StoreOp) -> bool {
    match r {
        Ok(Handled::Answer { stat, results }) => {
            &&& results@.len() <= INLINE_LIMIT
            &&& stat matches Some(s) ==> s.user_id == sender && s.wf()
        },
        Ok(_) => false,
        Err(e) => e.op == op && e.id is None || e.op == StoreOp::UserStats && e.id == Some(sender),
    }
}

/// Applies one update to the archive and says what was done. An update
/// about another chat, of an unhandled kind, or a choice of the statistics
/// entry touches nothing and cannot fail.
pub fn handle_update(db: &Database, target: &Target, update: Update) -> (r: Result<
    Handled,
    StoreError,
>)
    ensures
        match update@ {
            UpdateView::NewMessage { chat, message } => if chat == target.chat {
                match r {
                    Ok(h) => h matches Handled::Stored { id } && id == message.id,
                    Err(e) => e.op == StoreOp::Upsert && e.id == Some(message.id as i64),
                }
            } else {
                r matches Ok(Handled::Foreign)
            },
            UpdateView::MessageDeleted { channel, messages } => if channel == Some(target.channel) {
                match r {
                    Ok(h) => h matches Handled::Deleted { count } && (messages.len() == 0 ==> count
                        == 0),
                    Err(e) => e.op == StoreOp::Delete,
                }
            } else {
                r matches Ok(Handled::Foreign)
            },
            UpdateView::InlineQuery { sender, text } => is_answer_for(
                r,
                sender,
                if text.len() == 0 {
                    StoreOp::Random
                } else {
                    StoreOp::Search
                },
            ),
            UpdateView::InlineSend { sender, result_id } => if result_id == USER_STATS_ID@ {
                r matches Ok(Handled::StatsRequested { user }) && user == sender
            } else {
                match r {
                    Ok(h) => h matches Handled::Counted { user } && user == sender,
                    Err(e) => e.op == StoreOp::BumpUserCount && e.id == Some(sender),
                }
            },
            UpdateView::Other => r matches Ok(Handled::Ignored),
        },
{
    let way = route(target, &update);
    match update {
        Update::NewMessage { chat: _, message } => {
            if way == Route::Store {
                let record = MessageRecord::from_raw(message);
                match db.upsert_one(&record) {
                    Ok(_) => Ok(Handled::Stored { id: record.id }),
                    Err(e) => Err(e),
                }
            } else {
                Ok(Handled::Foreign)
            }
        },
        Update::MessageDeleted { channel: _, messages } => {
            if way == Route::Remove {
                match db.delete(messages.as_slice()) {
                    Ok(count) => Ok(Handled::Deleted { count }),
                    Err(e) => Err(e),
                }
            } else {
                Ok(Handled::Foreign)
            }
        },
        Update::InlineQuery { sender, text } => {
            let found = if way == Route::Sample {
                db.random(INLINE_LIMIT)
            } else {
                db.search(text.as_str(), INLINE_LIMIT)
            };
            match found {
                Ok(results) => match db.get_user_stats(sender) {
                    Ok(stat) => Ok(Handled::Answer { stat, results }),
                    Err(e) => Err(e),
                },
                Err(e) => Err(e),
            }
        },
        Update::InlineSend { sender, result_id: _ } => {
            if way == Route::StatsChosen {
                Ok(Handled::StatsRequested { user: sender })
            } else {
                match db.bump_user_count(sender) {
                    Ok(_) => Ok(Handled::Counted { user: sender }),
                    Err(e) => Err(e),
                }
            }
        },
        Update::Other => Ok(Handled::Ignored),
    }
}

} // verus!
