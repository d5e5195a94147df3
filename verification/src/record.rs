//! The values that the archive stores and hands back.

use vstd::prelude::*;

verus! {

/// One archived message.
#[derive(Debug, Clone)]
pub struct MessageRecord {
    /// Identifier that the source gave the message; the archive's key.
    pub id: i32,
    /// Plain text of the message, absent when it had none.
    pub text: Option<String>,
    /// Whether the message was forwarded from somewhere else.
    pub is_forwarded: bool,
    /// The whole message as the source serialised it; never read here.
    pub raw: Vec<u8>,
}

/// What a [`MessageRecord`] holds.
pub struct MessageRecordView {
    pub id: i32,
    pub text: Option<Seq<char>>,
    pub is_forwarded: bool,
    pub raw: Seq<u8>,
}

impl View for MessageRecord {
    type V = MessageRecordView;

    open spec fn view(&self) -> MessageRecordView {
        MessageRecordView {
            id: self.id,
            text: match self.text {
                Some(t) => Some(t@),
                None => None,
            },
            is_forwarded: self.is_forwarded,
            raw: self.raw@,
        }
    }
}

/// A message as the source delivered it, reduced to what the archive reads.
#[derive(Debug, Clone)]
pub struct RawMessage {
    /// Identifier that the source gave the message.
    pub id: i32,
    /// Plain text, empty when the message had none.
    pub text: String,
    /// Whether the message carries a forward header.
    pub forwarded: bool,
    /// Whether the source delivered an empty shell in place of a message.
    pub empty: bool,
    /// The message as the source serialised it.
    pub payload: Vec<u8>,
}

/// What a [`RawMessage`] holds.
pub struct RawMessageView {
    pub id: i32,
    pub text: Seq<char>,
    pub forwarded: bool,
    pub empty: bool,
    pub payload: Seq<u8>,
}

impl View for RawMessage {
    type V = RawMessageView;

    open spec fn view(&self) -> RawMessageView {
        RawMessageView {
            id: self.id,
            text: self.text@,
            forwarded: self.forwarded,
            empty: self.empty,
            payload: self.payload@,
        }
    }
}

/// The record that archives the delivered message `m`: an empty text is
/// stored as no text, everything else is kept as it came.
pub open spec fn record_of(m: RawMessageView) -> MessageRecordView {
    MessageRecordView {
        id: m.id,
        text: if m.text.len() == 0 {
            None
        } else {
            Some(m.text)
        },
        is_forwarded: m.forwarded,
        raw: m.payload,
    }
}

impl MessageRecord {
    /// Turns a delivered message into the record that archives it.
    pub fn from_raw(msg: RawMessage) -> (r: MessageRecord)
        ensures
            r@ == record_of(msg@),
    {
        let RawMessage { id, text, forwarded, empty: _, payload } = msg;
        let text = if text.as_str().is_empty() {
            None
        } else {
            Some(text)
        };
        MessageRecord { id, text, is_forwarded: forwarded, raw: payload }
    }
}

/// One row of an answer to a query.
#[derive(Debug, Clone)]
pub struct SearchResult {
    /// Identifier of the archived message.
    pub id: i32,
    /// Its text.
    pub text: String,
}

/// What a [`SearchResult`] holds.
pub struct SearchResultView {
    pub id: i32,
    pub text: Seq<char>,
}

impl View for SearchResult {
    type V = SearchResultView;

    open spec fn view(&self) -> SearchResultView {
        SearchResultView { id: self.id, text: self.text@ }
    }
}

} // verus!

verus! {

/// One row that the engine hands back for a query over the messages.
#[derive(Debug, Clone)]
pub struct MessageRow {
    /// Identifier of the stored message.
    pub id: i32,
    /// Its text, if it has one.
    pub text: Option<String>,
    /// Whether it is stored as forwarded.
    pub is_forwarded: bool,
}

/// What a [`MessageRow`] holds.
pub struct MessageRowView {
    pub id: i32,
    pub text: Option<Seq<char>>,
    pub is_forwarded: bool,
}

impl View for MessageRow {
    type V = MessageRowView;

    open spec fn view(&self) -> MessageRowView {
        MessageRowView {
            id: self.id,
            text: match self.text {
                Some(t) => Some(t@),
                None => None,
            },
            is_forwarded: self.is_forwarded,
        }
    }
}

/// One row of the per-user counter table.
#[derive(Debug, Clone, Copy)]
pub struct CounterRow {
    /// The user.
    pub user_id: i64,
    /// How many results that user has sent so far.
    pub count: u32,
}

} // verus!
