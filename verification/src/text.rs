//! Character-level operations on string slices, each specified over the
//! sequence of characters that the slice denotes.
use vstd::prelude::*;

verus! {

/// `text` with every character that occurs in `targets` replaced by `with`.
pub open spec fn replaced(text: Seq<char>, targets: Seq<char>, with: Seq<char>) -> Seq<char>
    decreases text.len(),
{
    if text.len() == 0 {
        Seq::empty()
    } else {
        replaced(text.drop_last(), targets, with) + if targets.contains(text.last()) {
            with
        } else {
            seq![text.last()]
        }
    }
}

/// Whether two string slices hold the same characters.
pub fn same_text(a: &str, b: &str) -> (r: bool)
    ensures
        r == (a@ == b@),
{
    let x = a.to_owned();
    let y = b.to_owned();
    x == y
}

/// Whether `text` begins with `prefix`.
pub fn has_prefix(text: &str, prefix: &str) -> (r: bool)
    ensures
        r == prefix@.is_prefix_of(text@),
{
    let n: usize = prefix.unicode_len();
    let m: usize = text.unicode_len();
    if m < n {
        return false;
    }
    let mut i: usize = 0;
    while i < n
        invariant
            n == prefix@.len(),
            m == text@.len(),
            n <= m,
            i <= n,
            forall|j: int| 0 <= j < i ==> prefix@[j] == text@[j],
        decreases n - i,
    {
        if prefix.get_char(i) != text.get_char(i) {
            return false;
        }
        i = i + 1;
    }
    assert(prefix@ =~= text@.subrange(0, prefix@.len() as int));
    true
}

/// Whether `c` is one of the characters of `set`.
pub fn occurs_in(c: char, set: &str) -> (r: bool)
    ensures
        r == set@.contains(c),
{
    let n: usize = set.unicode_len();
    let mut i: usize = 0;
    while i < n
        invariant
            n == set@.len(),
            i <= n,
            forall|j: int| 0 <= j < i ==> set@[j] != c,
        decreases n - i,
    {
        if set.get_char(i) == c {
            return true;
        }
        i = i + 1;
    }
    false
}

/// Copies `text`, writing `with` in place of each character found in `targets`.
/// A text of ASCII characters is copied in time linear in its length; in any
/// other text each character is found by counting from the start.
pub fn replace_chars(text: &str, targets: &str, with: &str) -> (r: String)
    ensures
        r@ == replaced(text@, targets@, with@),
{
    let ascii: bool = text.is_ascii();
    let n: usize = text.unicode_len();
    let mut out = String::new();
    let mut i: usize = 0;
    while i < n
        invariant
            n == text@.len(),
            i <= n,
            ascii == text.is_ascii(),
            out@ == replaced(text@.take(i as int), targets@, with@),
        decreases n - i,
    {
        let (c, piece) = if ascii {
            (text.get_ascii(i) as char, text.substring_ascii(i, i + 1))
        } else {
            (text.get_char(i), text.substring_char(i, i + 1))
        };
        proof {
            let next = text@.take(i + 1);
            assert(next.drop_last() =~= text@.take(i as int));
            assert(next.last() == text@[i as int]);
            assert(c == text@[i as int]);
            assert(piece@ =~= seq![c]);
        }
        if occurs_in(c, targets) {
            out.append(with);
        } else {
            out.append(piece);
        }
        i = i + 1;
    }
    assert(text@.take(n as int) =~= text@);
    out
}

/// The lower-case form of a text, as `str::to_lowercase` of the standard library
/// computes it from the Unicode character tables.
pub uninterp spec fn lowercase_of(text: Seq<char>) -> Seq<char>;

/// Calls `str::to_lowercase`. Believed, not proved: the result is the lower-case
/// form of the argument, a function of the argument's characters alone.
#[verifier::external_body]
pub(crate) fn to_lowercase(text: &str) -> (r: String)
    ensures
        r@ == lowercase_of(text@),
{
    text.to_lowercase()
}

} // verus!
