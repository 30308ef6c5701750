use vstd::prelude::*;

use crate::codegen::{generate_code, is_short_code};
use crate::models::UrlMapping;
use crate::record::StoreError;

verus! {

/// What the persistent get-or-create does once the lookup by long URL has
/// answered.
#[derive(Debug)]
pub enum CreateAction {
    /// The URL is known: answer with its mapping, and touch nothing.
    Reuse(UrlMapping),
    /// The URL is new: insert it under this freshly minted code.
    Insert(String),
    /// The lookup failed: answer with its error.
    Fail(StoreError),
}

/// Decides the next step of get-or-create from the answer to the lookup
/// by long URL.
pub fn after_long_url_lookup(found: Result<Option<UrlMapping>, StoreError>) -> (r: CreateAction)
    ensures
        match found {
            Ok(Some(m)) => r == CreateAction::Reuse(m),
            Ok(None) => r is Insert && is_short_code(r->Insert_0@),
            Err(e) => r == CreateAction::Fail(e),
        },
{
    match found {
        Ok(Some(m)) => CreateAction::Reuse(m),
        Ok(None) => CreateAction::Insert(generate_code()),
        Err(e) => CreateAction::Fail(e),
    }
}

/// What the persistent long-URL lookup does once the lookup by short code
/// has answered.
#[derive(Debug)]
pub enum LookupAction {
    /// The code is known: record one access to `short_code`, then answer
    /// with `long_url`.
    Touch { short_code: String, long_url: String },
    /// Nothing more to do: the answer.
    Finish(Result<Option<String>, StoreError>),
}

/// Decides the next step of a long-URL lookup from the answer to the lookup
/// by short code. A found mapping is touched exactly once, under its own
/// code; an unknown code is no error.
pub fn after_short_code_lookup(found: Result<Option<UrlMapping>, StoreError>) -> (r: LookupAction)
    ensures
        match found {
            Ok(Some(m)) => r == (LookupAction::Touch {
                short_code: m.short_code,
                long_url: m.long_url,
            }),
            Ok(None) => r == LookupAction::Finish(Ok(None)),
            Err(e) => r == LookupAction::Finish(Err(e)),
        },
{
    match found {
        Ok(Some(m)) => LookupAction::Touch { short_code: m.short_code, long_url: m.long_url },
        Ok(None) => LookupAction::Finish(Ok(None)),
        Err(e) => LookupAction::Finish(Err(e)),
    }
}

/// The answer of a long-URL lookup once the touch of its mapping has
/// answered: the long URL, or the touch's error.
pub fn after_touch(long_url: String, touched: Result<(), StoreError>) -> (r: Result<
    Option<String>,
    StoreError,
>)
    ensures
        match touched {
            Ok(()) => r == Ok::<Option<String>, StoreError>(Some(long_url)),
            Err(e) => r == Err::<Option<String>, StoreError>(e),
        },
{
    match touched {
        Ok(()) => Ok(Some(long_url)),
        Err(e) => Err(e),
    }
}

} // verus!
