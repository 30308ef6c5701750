use vstd::prelude::*;

use crate::models::UrlMapping;
use crate::responses::{
    rejection, reason_text, redirect_reply, RedirectReply, Rejection, STATUS_BAD_REQUEST,
    STATUS_FOUND, STATUS_NOT_FOUND,
};
use crate::store::{get_or_create_step, lookup, InMemoryUrlStore};
use crate::validation::{validate_url, validation_outcome};

verus! {

/// The body of a request to shorten a URL.
#[derive(Debug, Clone)]
pub struct CreateShortUrlRequest {
    pub long_url: String,
}

/// Handles a request to shorten `long_url` against `store`: a refused URL
/// gets its rejection and leaves the store as it was; an accepted one gets
/// its mapping, created if new. The URL is stored as given: the trimming
/// that validation does is only for the check.
pub fn shorten(store: &mut InMemoryUrlStore, long_url: &str) -> (r: Result<UrlMapping, Rejection>)
    requires
        old(store).wf(),
    ensures
        final(store).wf(),
        match validation_outcome(long_url@) {
            Err(e) => {
                &&& final(store)@ == old(store)@
                &&& r is Err
                &&& r->Err_0.status == STATUS_BAD_REQUEST
                &&& r->Err_0.error@ == "Invalid URL"@
                &&& r->Err_0.reason@ == reason_text(e)
            },
            Ok(()) => {
                &&& r is Ok
                &&& get_or_create_step(old(store)@, long_url@, final(store)@, r->Ok_0.short_code@)
                &&& r->Ok_0.long_url@ == long_url@
            },
        },
{
    match validate_url(long_url) {
        Err(e) => Err(rejection(e)),
        Ok(()) => Ok(store.get_or_create(long_url)),
    }
}

/// Handles a request for `short_code` against `store`: a redirect to its
/// long URL, or not found.
pub fn redirect(store: &InMemoryUrlStore, short_code: &str) -> (r: RedirectReply)
    requires
        store.wf(),
    ensures
        match lookup(store@, short_code@) {
            Some(u) => r.status == STATUS_FOUND && r.location is Some && r.location->Some_0@ == u,
            None => r.status == STATUS_NOT_FOUND && r.location is None,
        },
{
    redirect_reply(Ok(store.get_long_url(short_code)))
}

} // verus!
