use vstd::prelude::*;
use vstd::string::StringExecFns;

use crate::codegen::{generate_code, is_short_code};
use crate::models::UrlMapping;

verus! {

/// Some short code of `m` leads to `u`.
pub open spec fn has_url(m: Map<Seq<char>, Seq<char>>, u: Seq<char>) -> bool {
    exists|c: Seq<char>| m.contains_key(c) && m[c] == u
}

/// No two short codes of `m` lead to the same long URL.
pub open spec fn one_code_per_url(m: Map<Seq<char>, Seq<char>>) -> bool {
    forall|c1: Seq<char>, c2: Seq<char>|
        m.contains_key(c1) && m.contains_key(c2) && #[trigger] m[c1] == #[trigger] m[c2] ==> c1
            == c2
}

/// What looking up `code` in `m` gives.
pub open spec fn lookup(m: Map<Seq<char>, Seq<char>>, code: Seq<char>) -> Option<Seq<char>> {
    if m.contains_key(code) {
        Some(m[code])
    } else {
        None
    }
}

/// How get-or-create for `u` takes the store from `before` to `after` and
/// answers `code`: a URL already present keeps its code and nothing changes;
/// an unseen one is stored under a freshly minted code.
pub open spec fn get_or_create_step(
    before: Map<Seq<char>, Seq<char>>,
    u: Seq<char>,
    after: Map<Seq<char>, Seq<char>>,
    code: Seq<char>,
) -> bool {
    if has_url(before, u) {
        &&& after == before
        &&& before.contains_key(code)
        &&& before[code] == u
    } else {
        &&& after == before.insert(code, u)
        &&& is_short_code(code)
    }
}

/// The in-memory mapping store: short codes to long URLs, one code per
/// long URL.
pub struct InMemoryUrlStore {
    codes: Vec<String>,
    urls: Vec<String>,
    contents: Ghost<Map<Seq<char>, Seq<char>>>,
}

impl View for InMemoryUrlStore {
    type V = Map<Seq<char>, Seq<char>>;

    closed spec fn view(&self) -> Map<Seq<char>, Seq<char>> {
        self.contents@
    }
}

impl InMemoryUrlStore {
    /// Entry `i` holds `codes[i]` and `urls[i]`; codes are distinct and the
    /// entries are exactly the view.
    pub closed spec fn wf(&self) -> bool {
        &&& self.codes.len() == self.urls.len()
        &&& forall|i: int|
            0 <= i < self.codes.len() ==> self.contents@.contains_key(#[trigger] self.codes@[i]@)
                && self.contents@[self.codes@[i]@] == self.urls@[i]@
        &&& forall|c: Seq<char>|
            #[trigger] self.contents@.contains_key(c) ==> exists|i: int|
                0 <= i < self.codes.len() && #[trigger] self.codes@[i]@ == c
        &&& forall|i: int, j: int|
            0 <= i < self.codes.len() && 0 <= j < self.codes.len() && i != j ==> #[trigger] self.codes@[i]@
                != #[trigger] self.codes@[j]@
        &&& one_code_per_url(self.contents@)
    }

    /// An empty store.
    pub fn new() -> (r: InMemoryUrlStore)
        ensures
            r.wf(),
            r@ == Map::<Seq<char>, Seq<char>>::empty(),
    {
        InMemoryUrlStore { codes: Vec::new(), urls: Vec::new(), contents: Ghost(Map::empty()) }
    }

    /// Returns the mapping of `long_url`, creating it under a new code when
    /// the URL has none yet. A new code that happens to be in use already
    /// takes that entry over, as an insert into a map would.
    pub fn get_or_create(&mut self, long_url: &str) -> (r: UrlMapping)
        requires
            old(self).wf(),
        ensures
            final(self).wf(),
            get_or_create_step(old(self)@, long_url@, final(self)@, r.short_code@),
            final(self)@.contains_key(r.short_code@),
            final(self)@[r.short_code@] == long_url@,
            r.long_url@ == long_url@,
            r.created_at@ == Seq::<char>::empty(),
            r.last_accessed_at is None,
            r.access_count == 0,
    {
        let key = String::from_str(long_url);
        let i = position_of(&self.urls, &key);
        if i < self.urls.len() {
            let code = self.codes[i].clone();
            proof {
                assert(self.contents@.contains_key(self.codes@[i as int]@));
            }
            return UrlMapping::bare(code, key);
        }
        proof {
            if has_url(self@, long_url@) {
                let c = choose|c: Seq<char>| self@.contains_key(c) && self@[c] == long_url@;
                let j = choose|j: int| 0 <= j < self.codes.len() && #[trigger] self.codes@[j]@ == c;
                assert(self.urls@[j]@ == key@);
            }
        }
        let code = generate_code();
        let ghost before = self@;
        let ghost old_codes = self.codes@;
        let ghost old_urls = self.urls@;
        let m = self.codes.len();
        let k = position_of(&self.codes, &code);
        let ghost after = before.insert(code@, key@);
        if k < m {
            self.urls.set(k, key.clone());
        } else {
            self.codes.push(code.clone());
            self.urls.push(key.clone());
        }
        self.contents = Ghost(after);
        proof {
            lemma_step_keeps_one_code_per_url(before, long_url@, after, code@);
            assert forall|c: Seq<char>| #[trigger] after.contains_key(c) implies exists|i: int|
                0 <= i < self.codes.len() && #[trigger] self.codes@[i]@ == c by {
                if c == code@ {
                    if k < m {
                        assert(self.codes@[k as int]@ == c);
                    } else {
                        assert(self.codes@[m as int]@ == c);
                    }
                } else {
                    let j = choose|j: int| 0 <= j < m && #[trigger] old_codes[j]@ == c;
                    assert(self.codes@[j]@ == c);
                }
            }
            assert forall|i: int| 0 <= i < self.codes.len() implies after.contains_key(
                #[trigger] self.codes@[i]@,
            ) && after[self.codes@[i]@] == self.urls@[i]@ by {
                if i < m && i != k {
                    assert(self.codes@[i] == old_codes[i]);
                    assert(self.urls@[i] == old_urls[i]);
                    assert(old_codes[i]@ != code@);
                }
            }
            assert forall|i: int, j: int|
                0 <= i < self.codes.len() && 0 <= j < self.codes.len() && i != j implies #[trigger] self.codes@[i]@
                != #[trigger] self.codes@[j]@ by {
                if i < m && j < m {
                    assert(self.codes@[i] == old_codes[i]);
                    assert(self.codes@[j] == old_codes[j]);
                }
            }
        }
        UrlMapping::bare(code, key)
    }

    /// The long URL stored under `short_code`, if any.
    pub fn get_long_url(&self, short_code: &str) -> (r: Option<String>)
        requires
            self.wf(),
        ensures
            match r {
                Some(u) => lookup(self@, short_code@) == Some(u@),
                None => lookup(self@, short_code@) is None,
            },
    {
        let key = String::from_str(short_code);
        let i = position_of(&self.codes, &key);
        if i < self.codes.len() {
            proof {
                assert(self.contents@.contains_key(self.codes@[i as int]@));
            }
            return Some(self.urls[i].clone());
        }
        proof {
            if self@.contains_key(short_code@) {
                let j = choose|j: int| 0 <= j < self.codes.len() && #[trigger] self.codes@[j]@ == short_code@;
            }
        }
        None
    }
}

/// Index of the first string of `v` equal to `s`, or `v.len()` where there
/// is none.
fn position_of(v: &Vec<String>, s: &String) -> (r: usize)
    ensures
        r <= v.len(),
        r < v.len() ==> v@[r as int]@ == s@,
        forall|j: int| 0 <= j < r ==> v@[j]@ != s@,
{
    let mut i: usize = 0;
    while i < v.len()
        invariant
            0 <= i <= v.len(),
            forall|j: int| 0 <= j < i ==> v@[j]@ != s@,
        decreases v.len() - i,
    {
        if v[i] == *s {
            return i;
        }
        i = i + 1;
    }
    i
}

/// Get-or-create keeps one code per long URL.
pub proof fn lemma_step_keeps_one_code_per_url(
    before: Map<Seq<char>, Seq<char>>,
    u: Seq<char>,
    after: Map<Seq<char>, Seq<char>>,
    code: Seq<char>,
)
    requires
        one_code_per_url(before),
        get_or_create_step(before, u, after, code),
    ensures
        one_code_per_url(after),
{
    if !has_url(before, u) {
        assert forall|c1: Seq<char>, c2: Seq<char>|
            after.contains_key(c1) && after.contains_key(c2) && #[trigger] after[c1]
                == #[trigger] after[c2] implies c1 == c2 by {
            if c1 != code && c2 != code {
                assert(before[c1] == before[c2]);
            } else if c1 == code && c2 != code {
                assert(before.contains_key(c2) && before[c2] == u);
            } else if c1 != code && c2 == code {
                assert(before.contains_key(c1) && before[c1] == u);
            }
        }
    }
}

/// Idempotence: asking twice in a row for the same long URL gives the same
/// short code, and the second call leaves the store as the first left it.
pub proof fn lemma_get_or_create_idempotent(
    m0: Map<Seq<char>, Seq<char>>,
    u: Seq<char>,
    m1: Map<Seq<char>, Seq<char>>,
    c1: Seq<char>,
    m2: Map<Seq<char>, Seq<char>>,
    c2: Seq<char>,
)
    requires
        one_code_per_url(m0),
        get_or_create_step(m0, u, m1, c1),
        get_or_create_step(m1, u, m2, c2),
    ensures
        c2 == c1,
        m2 == m1,
{
    lemma_step_keeps_one_code_per_url(m0, u, m1, c1);
    assert(m1.contains_key(c1) && m1[c1] == u);
    assert(has_url(m1, u));
    assert(m1[c2] == m1[c1]);
}

/// Round trip: once get-or-create for `u` has answered `c`, looking up `c`
/// gives `u`.
pub proof fn lemma_round_trip(
    m0: Map<Seq<char>, Seq<char>>,
    u: Seq<char>,
    m1: Map<Seq<char>, Seq<char>>,
    c: Seq<char>,
)
    requires
        get_or_create_step(m0, u, m1, c),
    ensures
        lookup(m1, c) == Some(u),
{
}

} // verus!
