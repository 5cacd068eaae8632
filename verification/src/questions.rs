//! Question data shapes and the pure steps of the question handlers:
//! attributing an incoming question to its author, resolving its status, and
//! folding the censorship results back into it.

use vstd::prelude::*;
use crate::errors::ServiceError;
use crate::text::str_eq;
use crate::users::UserTknDetails;

verus! {

/// The lifecycle status of a question.
#[derive(Clone, Copy, Debug, PartialEq, Eq, Structural)]
pub enum QuestStatus {
    Resolved,
    Unresolved,
    Pending,
    Canceled,
}

/// The name each status goes by in storage and over the wire.
pub open spec fn status_name(s: QuestStatus) -> Seq<char> {
    match s {
        QuestStatus::Resolved => "Resolved"@,
        QuestStatus::Unresolved => "Unresolved"@,
        QuestStatus::Pending => "Pending"@,
        QuestStatus::Canceled => "Canceled"@,
    }
}

impl QuestStatus {
    /// The status's name.
    pub fn to_str(self) -> (r: String)
        ensures
            r@ == status_name(self),
    {
        match self {
            QuestStatus::Resolved => "Resolved".to_owned(),
            QuestStatus::Unresolved => "Unresolved".to_owned(),
            QuestStatus::Pending => "Pending".to_owned(),
            QuestStatus::Canceled => "Canceled".to_owned(),
        }
    }

    /// The status a name denotes, if any: exactly the four status names are
    /// accepted.
    pub fn from_str(s: &str) -> (r: Option<QuestStatus>)
        ensures
            match r {
                Some(st) => s@ == status_name(st),
                None => forall|st: QuestStatus| s@ != status_name(st),
            },
    {
        if str_eq(s, "Resolved") {
            Some(QuestStatus::Resolved)
        } else if str_eq(s, "Unresolved") {
            Some(QuestStatus::Unresolved)
        } else if str_eq(s, "Pending") {
            Some(QuestStatus::Pending)
        } else if str_eq(s, "Canceled") {
            Some(QuestStatus::Canceled)
        } else {
            None
        }
    }
}

/// An incoming question body, before attribution.
#[derive(Clone, Debug, PartialEq, Eq)]
pub struct QuestIn {
    pub title: String,
    pub content: String,
    pub tags: Option<Vec<String>>,
    pub status: Option<QuestStatus>,
}

/// A question attributed to its author, ready for storage.
#[derive(Debug, PartialEq, Eq)]
pub struct QuestByUser {
    pub title: String,
    pub content: String,
    pub tags: Option<Vec<String>>,
    pub status: Option<QuestStatus>,
    pub user_id: String,
}

/// A stored question, as listings and lookups hand it back.
#[derive(Clone, Debug, PartialEq, Eq)]
pub struct QuestOut {
    pub _id: String,
    pub created_at: String,
    pub title: String,
    pub content: String,
    pub tags: Option<Vec<String>>,
    pub status: QuestStatus,
    pub author: String,
}

impl QuestIn {
    /// Attribute the question to the creating identity: the `author` field
    /// is set once here and is immutable thereafter.
    pub fn authored_by(self, user_id: String) -> (q: QuestByUser)
        ensures
            q.title == self.title,
            q.content == self.content,
            q.tags == self.tags,
            q.status == self.status,
            q.user_id == user_id,
    {
        QuestByUser {
            title: self.title,
            content: self.content,
            tags: self.tags,
            status: self.status,
            user_id,
        }
    }
}

/// The status a question is stored under when none was given.
pub open spec fn effective_status(s: Option<QuestStatus>) -> QuestStatus {
    match s {
        Some(st) => st,
        None => QuestStatus::Pending,
    }
}

impl QuestByUser {
    /// The status name to bind in the storage statement; an absent status
    /// defaults to pending.
    pub fn parse_status(&self) -> (r: String)
        ensures
            r@ == status_name(effective_status(self.status)),
    {
        match self.status {
            None => QuestStatus::Pending.to_str(),
            Some(st) => st.to_str(),
        }
    }
}

/// Whether a question authored by this caller passes through censorship:
/// moderators author content without it.
pub fn needs_censorship(u: &UserTknDetails) -> (r: bool)
    ensures
        r == !u.is_moderator,
{
    !u.is_moderator
}

/// Fold the censored title and content back into the question: both must
/// have come back clean, and the first failure — title before content —
/// propagates unchanged.
pub fn apply_censorship(
    q: QuestIn,
    title: Result<String, ServiceError>,
    content: Result<String, ServiceError>,
) -> (r: Result<QuestIn, ServiceError>)
    ensures
        title matches Err(e) ==> r == Err::<QuestIn, ServiceError>(e),
        title is Ok ==> (content matches Err(e) ==> r == Err::<QuestIn, ServiceError>(e)),
        title matches Ok(t) ==> (content matches Ok(c) ==> (r matches Ok(q2) && q2.title == t
            && q2.content == c && q2.tags == q.tags && q2.status == q.status)),
{
    match (title, content) {
        (Ok(t), Ok(c)) => Ok(QuestIn { title: t, content: c, tags: q.tags, status: q.status }),
        (Err(e), _) => Err(e),
        (_, Err(e)) => Err(e),
    }
}

} // verus!
