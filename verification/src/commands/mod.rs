//! The decisions of the front-end commands, apart from their I/O.

pub mod download;
pub mod settings;
pub mod tasks;

use vstd::prelude::*;

use crate::error::AppError;

verus! {

/// The command boundary: a library result becomes a front-end result whose
/// error is the message of the library error.
pub fn api<T>(result: Result<T, AppError>) -> (r: Result<T, String>)
    ensures
        match result {
            Ok(v) => r == Ok::<T, String>(v),
            Err(e) => (r matches Err(m) && m@ == e.message_view()),
        },
{
    match result {
        Ok(v) => Ok(v),
        Err(e) => Err(e.message()),
    }
}

/// An empty setting counts as not configured.
pub fn none_if_empty(s: Option<&str>) -> (r: Option<&str>)
    ensures
        match s {
            Some(v) => if v@.len() > 0 {
                r == Some(v)
            } else {
                r is None
            },
            None => r is None,
        },
{
    match s {
        Some(v) => if v.is_empty() {
            None
        } else {
            Some(v)
        },
        None => None,
    }
}

} // verus!
