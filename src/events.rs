//! The events the controller publishes against the objects it reconciles.

use vstd::prelude::*;
use vstd::string::StringExecFns;

verus! {

/// What happened; each kind has a fixed reason and action string.
#[derive(Debug, Clone, Copy, PartialEq, Eq, Structural)]
pub enum EventKind {
    SecretCreated,
    UserCreated,
    GroupCreated,
    UserDeleted,
    GroupDeleted,
    UserNotFound,
}

/// An event to publish: its kind and the name it is about (a secret, a
/// directory login or a group).
#[derive(Debug)]
pub struct Notice {
    pub kind: EventKind,
    pub subject: String,
}

/// The reason string (also used as the action string) of each kind.
pub open spec fn reason_of(kind: EventKind) -> Seq<char> {
    match kind {
        EventKind::SecretCreated => "SecretCreated"@,
        EventKind::UserCreated => "UserCreated"@,
        EventKind::GroupCreated => "GroupCreated"@,
        EventKind::UserDeleted => "UserDeleted"@,
        EventKind::GroupDeleted => "GroupDeleted"@,
        EventKind::UserNotFound => "UserNotFound"@,
    }
}

/// The human-readable note of an event of `kind` about `subject`.
pub open spec fn note_of(kind: EventKind, subject: Seq<char>) -> Seq<char> {
    match kind {
        EventKind::SecretCreated => "Created secret '"@ + subject + "'"@,
        EventKind::UserCreated => "Created user '"@ + subject + "'"@,
        EventKind::GroupCreated => "Created group '"@ + subject + "'"@,
        EventKind::UserDeleted => "Deleted user '"@ + subject + "'"@,
        EventKind::GroupDeleted => "Deleted group '"@ + subject + "'"@,
        EventKind::UserNotFound => "User '"@ + subject + "' not found"@,
    }
}

impl EventKind {
    /// The event's reason.
    pub fn reason(&self) -> (r: &'static str)
        ensures
            r@ == reason_of(*self),
    {
        match self {
            EventKind::SecretCreated => "SecretCreated",
            EventKind::UserCreated => "UserCreated",
            EventKind::GroupCreated => "GroupCreated",
            EventKind::UserDeleted => "UserDeleted",
            EventKind::GroupDeleted => "GroupDeleted",
            EventKind::UserNotFound => "UserNotFound",
        }
    }

    /// The event's action, which is its reason.
    pub fn action(&self) -> (r: &'static str)
        ensures
            r@ == reason_of(*self),
    {
        self.reason()
    }

    /// Whether the event is a warning; all others are normal.
    pub fn is_warning(&self) -> (r: bool)
        ensures
            r == (*self == EventKind::UserNotFound),
    {
        match self {
            EventKind::UserNotFound => true,
            _ => false,
        }
    }
}

impl Notice {
    /// The event's note.
    pub fn note(&self) -> (r: String)
        ensures
            r@ == note_of(self.kind, self.subject@),
    {
        let (prefix, suffix) = match self.kind {
            EventKind::SecretCreated => ("Created secret '", "'"),
            EventKind::UserCreated => ("Created user '", "'"),
            EventKind::GroupCreated => ("Created group '", "'"),
            EventKind::UserDeleted => ("Deleted user '", "'"),
            EventKind::GroupDeleted => ("Deleted group '", "'"),
            EventKind::UserNotFound => ("User '", "' not found"),
        };
        let mut r = String::from_str(prefix);
        r.append(self.subject.as_str());
        r.append(suffix);
        r
    }
}

} // verus!
