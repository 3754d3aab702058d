//! Notifications to users.

use vstd::prelude::*;
use crate::error::{database_error_message, is_failure, read_or_fail, written_or, ApiError, DbError, ErrorKind};
use crate::ids::Id;
use crate::text::owned;

verus! {

/// A notification to record. `J` is the type of the data that goes with it.
#[derive(Clone, Debug, PartialEq, Eq)]
pub struct NotificationInput<J> {
    pub user_id: Id,
    pub title: String,
    pub message: String,
    pub category: Option<String>,
    pub data: Option<J>,
}

/// A recorded notification.
#[derive(Clone, Debug, PartialEq, Eq)]
pub struct NotificationItem<J> {
    pub notification_id: Id,
    pub user_id: Id,
    pub title: String,
    pub message: String,
    pub category: Option<String>,
    pub data: Option<J>,
    pub is_read: Option<bool>,
}

/// The answer to a request that recorded a notification.
#[derive(Clone, Copy, Debug, PartialEq, Eq, Structural)]
pub struct NotificationCreated {
    pub notification_id: Id,
}

/// The answer to a request that needs no other answer.
#[derive(Clone, Debug, PartialEq, Eq)]
pub struct StatusReport {
    pub status: String,
}

/// The notifications of a user, or the fixed internal failure where they
/// could not be read.
pub fn list_user_notifications<J>(notifications: Result<Vec<NotificationItem<J>>, DbError>) -> (r: Result<
    Vec<NotificationItem<J>>,
    ApiError,
>)
    ensures
        match notifications {
            Ok(items) => r == Ok::<Vec<NotificationItem<J>>, ApiError>(items),
            Err(_) => is_failure(r, ErrorKind::Internal, database_error_message()),
        },
{
    read_or_fail(notifications)
}

/// The answer to the request once the notification was written, or was not.
pub fn create_notification(written: Result<Id, DbError>) -> (r: Result<NotificationCreated, ApiError>)
    ensures
        match written {
            Ok(notification_id) => r == Ok::<NotificationCreated, ApiError>(NotificationCreated { notification_id }),
            Err(_) => is_failure(r, ErrorKind::Internal, "failed to create notification"@),
        },
{
    match written_or(written, "failed to create notification") {
        Ok(notification_id) => Ok(NotificationCreated { notification_id }),
        Err(e) => Err(e),
    }
}

/// The answer to the request once the notification was marked as read, or
/// was not.
pub fn mark_read(written: Result<(), DbError>) -> (r: Result<StatusReport, ApiError>)
    ensures
        match written {
            Ok(_) => r matches Ok(report) && report.status@ == "ok"@,
            Err(_) => is_failure(r, ErrorKind::Internal, "failed to mark read"@),
        },
{
    match written_or(written, "failed to mark read") {
        Ok(_) => Ok(StatusReport { status: owned("ok") }),
        Err(e) => Err(e),
    }
}

} // verus!
