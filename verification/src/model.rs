//! The plain values of a fetch: where to connect, which record to read, and
//! the ways a fetch can fail.

use vstd::prelude::*;

verus! {

/// How to reach the cluster: the broker address list and the consumer group
/// named in the handshake.
#[derive(Debug, Clone, PartialEq, Eq)]
pub struct ConnectionConfig {
    pub brokers: String,
    pub group_id: String,
}

/// The mathematical value of a [`ConnectionConfig`].
pub struct ConfigView {
    pub brokers: Seq<char>,
    pub group_id: Seq<char>,
}

impl View for ConnectionConfig {
    type V = ConfigView;

    open spec fn view(&self) -> ConfigView {
        ConfigView { brokers: self.brokers@, group_id: self.group_id@ }
    }
}

/// Where a record lives: a topic, one of its partitions, and an absolute log offset.
#[derive(Debug, Clone, PartialEq, Eq)]
pub struct PartitionLocation {
    pub topic: String,
    pub partition: i32,
    pub offset: i64,
}

/// The mathematical value of a [`PartitionLocation`].
pub struct LocationView {
    pub topic: Seq<char>,
    pub partition: i32,
    pub offset: i64,
}

impl View for PartitionLocation {
    type V = LocationView;

    open spec fn view(&self) -> LocationView {
        LocationView {
            topic: self.topic@,
            partition: self.partition,
            offset: self.offset,
        }
    }
}

impl LocationView {
    /// The topic can be written as a C string.
    pub open spec fn topic_is_plain(self) -> bool {
        !self.topic.contains('\0')
    }

    /// A location that can be put into an assignment: a topic without a NUL
    /// character, a partition index that is not negative, and an offset that
    /// is not negative.
    pub open spec fn assignable(self) -> bool {
        &&& self.topic_is_plain()
        &&& self.partition >= 0
        &&& self.offset >= 0
    }

    /// The error that answers a location that is not assignable, by the
    /// first of its three demands that fails.
    pub open spec fn rejection(self) -> FetchErrorView {
        if !self.topic_is_plain() {
            FetchErrorView::Assignment("Topic name holds a NUL character"@)
        } else if self.partition < 0 {
            FetchErrorView::Assignment("Partition index is negative"@)
        } else {
            FetchErrorView::Assignment("Offset is negative"@)
        }
    }
}

/// Why a fetch ended without a payload.
#[derive(Debug, Clone, PartialEq, Eq)]
pub enum FetchError {
    /// The cluster could not be reached or the handshake failed.
    Connection(String),
    /// The topic and partition could not be assigned.
    Assignment(String),
    /// The broker answered the poll with an error event.
    Poll(String),
    /// A record arrived, but it carries no payload.
    EmptyPayload,
    /// The poll came back without any event.
    NoEvent,
}

/// The mathematical value of a [`FetchError`].
pub enum FetchErrorView {
    Connection(Seq<char>),
    Assignment(Seq<char>),
    Poll(Seq<char>),
    EmptyPayload,
    NoEvent,
}

impl View for FetchError {
    type V = FetchErrorView;

    open spec fn view(&self) -> FetchErrorView {
        match self {
            FetchError::Connection(detail) => FetchErrorView::Connection(detail@),
            FetchError::Assignment(detail) => FetchErrorView::Assignment(detail@),
            FetchError::Poll(detail) => FetchErrorView::Poll(detail@),
            FetchError::EmptyPayload => FetchErrorView::EmptyPayload,
            FetchError::NoEvent => FetchErrorView::NoEvent,
        }
    }
}

impl FetchErrorView {
    /// The text shown for an error: the detail it carries, or a fixed
    /// sentence where it carries none.
    pub open spec fn message(self) -> Seq<char> {
        match self {
            FetchErrorView::Connection(detail) => detail,
            FetchErrorView::Assignment(detail) => detail,
            FetchErrorView::Poll(detail) => detail,
            FetchErrorView::EmptyPayload => "Empty payload"@,
            FetchErrorView::NoEvent => "Nothing came from poll"@,
        }
    }
}

impl FetchError {
    /// The text to show for this error.
    pub fn message(&self) -> (text: String)
        ensures
            text@ == self@.message(),
    {
        match self {
            FetchError::Connection(detail) => detail.clone(),
            FetchError::Assignment(detail) => detail.clone(),
            FetchError::Poll(detail) => detail.clone(),
            FetchError::EmptyPayload => "Empty payload".to_owned(),
            FetchError::NoEvent => "Nothing came from poll".to_owned(),
        }
    }
}

/// Whether `text` holds a NUL character.
pub fn contains_nul(text: &str) -> (found: bool)
    ensures
        found == text@.contains('\0'),
{
    let n: usize = text.unicode_len();
    let mut i: usize = 0;
    while i < n
        invariant
            n == text@.len(),
            i <= n,
            forall|j: int| 0 <= j < i ==> text@[j] != '\0',
        decreases n - i,
    {
        if text.get_char(i) == '\0' {
            return true;
        }
        i += 1;
    }
    false
}

} // verus!
