//! What the service makes of the answers of its store.
//!
//! The store itself belongs to the caller. These are the rules that every
//! operation on it follows: what counts as found, what counts as done, and
//! how the outcome is answered.

use vstd::prelude::*;
use crate::errors::{ServiceError, STATUS_INTERNAL_SERVER_ERROR, STATUS_NOT_FOUND};
use crate::model::{FindUser, Session, UserMail};

verus! {

pub const STATUS_OK: u16 = 200;

/// Why an operation on the store gave nothing.
#[derive(Debug, Clone, Copy, PartialEq, Eq, Structural)]
pub enum StoreFailure {
    /// Nothing is stored under the key.
    NotFound,
    /// The operation did not do what it was for.
    Failed,
}

/// A statement that is to change one row has done so exactly when it
/// reports one row.
pub fn single_row(updated: u64) -> (done: Result<(), StoreFailure>)
    ensures
        done is Ok <==> updated == 1,
        done matches Err(e) ==> e == StoreFailure::Failed,
{
    if updated == 1 {
        Ok(())
    } else {
        Err(StoreFailure::Failed)
    }
}

/// A lookup that gave no row has found nothing.
pub fn found_row<T>(row: Option<T>) -> (found: Result<T, StoreFailure>)
    ensures
        match row {
            Some(r) => found == Ok::<T, StoreFailure>(r),
            None => found == Err::<T, StoreFailure>(StoreFailure::NotFound),
        },
{
    match row {
        Some(r) => Ok(r),
        None => Err(StoreFailure::NotFound),
    }
}

/// An insertion hands back the row it made: the last of the rows that it
/// reports. One that reports none has failed.
pub fn created_row<T>(rows: Vec<T>) -> (created: Result<T, StoreFailure>)
    ensures
        match created {
            Ok(r) => rows@.len() > 0 && r == rows@.last(),
            Err(e) => rows@.len() == 0 && e == StoreFailure::Failed,
        },
{
    let mut rows = rows;
    match rows.pop() {
        Some(r) => Ok(r),
        None => Err(StoreFailure::Failed),
    }
}

/// The HTTP status that answers the outcome of an operation on one stored
/// thing.
pub open spec fn status_of(failure: Option<StoreFailure>) -> u16 {
    match failure {
        None => STATUS_OK,
        Some(StoreFailure::NotFound) => STATUS_NOT_FOUND,
        Some(StoreFailure::Failed) => STATUS_INTERNAL_SERVER_ERROR,
    }
}

/// The HTTP status that answers the outcome of an operation on one stored
/// thing: found and done, not found, or failed.
pub fn answer_status(failure: Option<StoreFailure>) -> (code: u16)
    ensures
        code == status_of(failure),
{
    match failure {
        None => STATUS_OK,
        Some(StoreFailure::NotFound) => STATUS_NOT_FOUND,
        Some(StoreFailure::Failed) => STATUS_INTERNAL_SERVER_ERROR,
    }
}

/// `e` is the failure that a missing account is reported as.
pub open spec fn is_account_missing(e: ServiceError) -> bool {
    e matches ServiceError::NotFound(m) && m@ == "Not found"@
}

/// The account that a lookup by address gave, or the failure to find one.
pub fn find_user_by_mail(row: Option<FindUser>) -> (found: Result<FindUser, ServiceError>)
    ensures
        match row {
            Some(user) => found == Ok::<FindUser, ServiceError>(user),
            None => found matches Err(e) && is_account_missing(e),
        },
{
    match row {
        Some(user) => Ok(user),
        None => Err(ServiceError::NotFound("Not found".to_owned())),
    }
}

/// The address that a lookup by user id gave, or the failure to find a
/// user under the id.
pub fn find_user_mail_by_id(row: Option<UserMail>) -> (found: Result<UserMail, ServiceError>)
    ensures
        match row {
            Some(mail) => found == Ok::<UserMail, ServiceError>(mail),
            None => found matches Err(e) && is_account_missing(e),
        },
{
    match row {
        Some(mail) => Ok(mail),
        None => Err(ServiceError::NotFound("Not found".to_owned())),
    }
}

/// The stored session that a logout deletes: the one that the request
/// named, if it named one. Deleting a session that is gone already is no
/// failure, so a logout always succeeds.
pub fn logout(session: Option<Session>) -> (delete: Option<i32>)
    ensures
        match session {
            Some(s) => delete == Some(s.session_id),
            None => delete is None,
        },
{
    match session {
        Some(s) => Some(s.session_id),
        None => None,
    }
}

} // verus!
