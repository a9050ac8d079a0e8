use vstd::prelude::*;
use crate::time::{available_at, UnixTime};

verus! {

/// A registered user and the point balance they have accumulated.
#[derive(Debug)]
pub struct User {
    pub id: String,
    pub screen_name: Option<String>,
    pub display_name: String,
    pub point: u64,
    pub created_at: UnixTime,
    pub subject: String,
}

impl User {
    /// A new user with an empty balance; the identifier and the creation
    /// instant are supplied by the caller.
    pub fn new(
        id: String,
        subject: String,
        screen_name: Option<String>,
        display_name: String,
        created_at: UnixTime,
    ) -> (r: User)
        ensures
            r.id == id,
            r.subject == subject,
            r.screen_name == screen_name,
            r.display_name == display_name,
            r.point == 0,
            r.created_at == created_at,
    {
        User { id, screen_name, display_name, point: 0, created_at, subject }
    }

    /// A field-by-field copy.
    pub fn duplicate(&self) -> (r: User)
        ensures
            r == *self,
    {
        let screen_name = match &self.screen_name {
            Some(s) => Some(s.clone()),
            None => None,
        };
        User {
            id: self.id.clone(),
            screen_name,
            display_name: self.display_name.clone(),
            point: self.point,
            created_at: self.created_at,
            subject: self.subject.clone(),
        }
    }
}

/// The kinds of draw a user can make.
#[derive(Clone, Copy, Debug, PartialEq, Eq, Structural)]
pub enum GachaType {
    Daily,
}

/// One recorded draw. Events are appended and never changed afterwards.
#[derive(Debug)]
pub struct GachaEvent {
    pub id: String,
    pub user_id: String,
    pub gacha_type: GachaType,
    pub created_at: UnixTime,
}

impl GachaEvent {
    /// Whether, `offset` seconds east of UTC, a new draw is allowed at `now`
    /// when this event is the user's latest.
    pub fn is_available_at(&self, offset: u64, now: UnixTime) -> (r: bool)
        ensures
            r == available_at(offset, self.created_at, now),
    {
        crate::time::is_available(offset, self.created_at, now)
    }

    /// A field-by-field copy.
    pub fn duplicate(&self) -> (r: GachaEvent)
        ensures
            r == *self,
    {
        GachaEvent {
            id: self.id.clone(),
            user_id: self.user_id.clone(),
            gacha_type: self.gacha_type,
            created_at: self.created_at,
        }
    }
}

/// What went wrong, as the request layer reports it.
#[derive(Clone, Copy, Debug, PartialEq, Eq, Structural)]
pub enum ErrorKind {
    Unauthenticated,
    NotFound,
    RateLimited,
    Internal,
}

/// An error of the service: its kind and a message for the log.
#[derive(Debug)]
pub struct ServiceError {
    pub kind: ErrorKind,
    pub message: String,
}

impl ServiceError {
    pub fn new(kind: ErrorKind, message: String) -> (r: ServiceError)
        ensures
            r.kind == kind,
            r.message == message,
    {
        ServiceError { kind, message }
    }

    /// The error of a daily draw made again within the same window.
    pub fn rate_limited() -> (r: ServiceError)
        ensures
            r.kind == ErrorKind::RateLimited,
    {
        ServiceError { kind: ErrorKind::RateLimited, message: String::from_str("Daily Gacha Rate Limit Exceeded") }
    }

    /// The error reported once a failed write could not be undone.
    pub fn operation_failed() -> (r: ServiceError)
        ensures
            r.kind == ErrorKind::Internal,
    {
        ServiceError { kind: ErrorKind::Internal, message: String::from_str("operation failed") }
    }

    /// The error reported when a balance would leave the range of `u64`.
    pub fn point_overflow() -> (r: ServiceError)
        ensures
            r.kind == ErrorKind::Internal,
    {
        ServiceError { kind: ErrorKind::Internal, message: String::from_str("point balance overflow") }
    }

    pub fn is_not_found(&self) -> (r: bool)
        ensures
            r == (self.kind == ErrorKind::NotFound),
    {
        match self.kind {
            ErrorKind::NotFound => true,
            _ => false,
        }
    }

    /// A field-by-field copy.
    pub fn duplicate(&self) -> (r: ServiceError)
        ensures
            r == *self,
    {
        ServiceError { kind: self.kind, message: self.message.clone() }
    }
}

} // verus!
