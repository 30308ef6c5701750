use vstd::prelude::*;

verus! {

/// Length of every minted short code.
pub const CODE_LEN: usize = 8;

/// The URL-safe alphabet that short codes are drawn from.
pub open spec fn is_code_char(c: char) -> bool {
    ||| c == '_'
    ||| c == '-'
    ||| ('0' <= c && c <= '9')
    ||| ('a' <= c && c <= 'z')
    ||| ('A' <= c && c <= 'Z')
}

/// A well-formed short code: `CODE_LEN` characters of the URL-safe alphabet.
pub open spec fn is_short_code(s: Seq<char>) -> bool {
    &&& s.len() == CODE_LEN
    &&& forall|i: int| 0 <= i < s.len() ==> is_code_char(#[trigger] s[i])
}

/// Relies on `nanoid::format` with `nanoid::rngs::default` and
/// `nanoid::alphabet::SAFE`: it returns exactly `size` characters, each taken
/// from that 64-character alphabet (`_`, `-`, digits, ASCII letters). With a
/// size of zero it never returns, and it computes `8 * size`, which must not
/// overflow.
#[verifier::external_body]
fn random_code(size: usize) -> (r: String)
    requires
        0 < size <= usize::MAX / 8,
    ensures
        r@.len() == size,
        forall|i: int| 0 <= i < r@.len() ==> is_code_char(#[trigger] r@[i]),
{
    nanoid::format(nanoid::rngs::default, &nanoid::alphabet::SAFE, size)
}

/// Mints a fresh random short code. Nothing checks it against codes that
/// are already in use.
pub fn generate_code() -> (r: String)
    ensures
        is_short_code(r@),
{
    random_code(CODE_LEN)
}

} // verus!
