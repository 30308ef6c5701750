use vstd::prelude::*;

use crate::models::UrlMapping;

verus! {

/// A mapping as the persistent store keeps it. An empty `last_accessed_at`
/// means that the mapping was never accessed.
#[derive(Debug, Clone)]
pub struct UrlMappingRecord {
    pub long_url: String,
    pub short_code: String,
    pub created_at: String,
    pub last_accessed_at: String,
    pub access_count: u64,
}

/// A failure of the persistent store.
#[derive(Debug, Clone)]
pub enum StoreError {
    /// The backend could not be reached or refused the query; its message.
    Backend(String),
    /// A record was expected back and none came.
    Db,
}

/// `m` carries the fields of `rec`, with an empty access time read as none.
pub open spec fn is_model_of(rec: UrlMappingRecord, m: UrlMapping) -> bool {
    &&& m.short_code@ == rec.short_code@
    &&& m.long_url@ == rec.long_url@
    &&& m.created_at@ == rec.created_at@
    &&& m.access_count == rec.access_count
    &&& match m.last_accessed_at {
        Some(t) => rec.last_accessed_at@.len() > 0 && t@ == rec.last_accessed_at@,
        None => rec.last_accessed_at@.len() == 0,
    }
}

/// The mapping that a stored record describes.
pub fn to_model(record: UrlMappingRecord) -> (r: UrlMapping)
    ensures
        is_model_of(record, r),
{
    let never = record.last_accessed_at.as_str().is_empty();
    UrlMapping {
        short_code: record.short_code,
        long_url: record.long_url,
        created_at: record.created_at,
        last_accessed_at: if never {
            None
        } else {
            Some(record.last_accessed_at)
        },
        access_count: record.access_count,
    }
}

/// The mapping that a lookup's record describes, if one was found.
pub fn found_mapping(record: Option<UrlMappingRecord>) -> (r: Option<UrlMapping>)
    ensures
        match record {
            Some(rec) => r is Some && is_model_of(rec, r->Some_0),
            None => r is None,
        },
{
    match record {
        Some(rec) => Some(to_model(rec)),
        None => None,
    }
}

/// The mapping that an insert answered with; an insert that answered with
/// no record fails with `StoreError::Db`.
pub fn created_mapping(created: Result<Option<UrlMappingRecord>, StoreError>) -> (r: Result<
    UrlMapping,
    StoreError,
>)
    ensures
        match created {
            Ok(Some(rec)) => r is Ok && is_model_of(rec, r->Ok_0),
            Ok(None) => r is Err && r->Err_0 is Db,
            Err(e) => r == Err::<UrlMapping, StoreError>(e),
        },
{
    match created {
        Ok(Some(rec)) => Ok(to_model(rec)),
        Ok(None) => Err(StoreError::Db),
        Err(e) => Err(e),
    }
}

} // verus!
