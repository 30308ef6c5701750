use vstd::prelude::*;

verus! {

/// A long URL and the short code that stands for it, with the access
/// metadata that the persistent store keeps. The in-memory store leaves the
/// metadata at its empty values.
#[derive(Debug, Clone)]
pub struct UrlMapping {
    pub short_code: String,
    pub long_url: String,
    pub created_at: String,
    pub last_accessed_at: Option<String>,
    pub access_count: u64,
}

impl UrlMapping {
    /// A mapping with no creation time and no recorded access.
    pub fn bare(short_code: String, long_url: String) -> (r: UrlMapping)
        ensures
            r.short_code@ == short_code@,
            r.long_url@ == long_url@,
            r.created_at@ == Seq::<char>::empty(),
            r.last_accessed_at is None,
            r.access_count == 0,
    {
        UrlMapping {
            short_code,
            long_url,
            created_at: String::new(),
            last_accessed_at: None,
            access_count: 0,
        }
    }
}

} // verus!
