//! Whitespace trimming on character sequences.
//!
//! A line of input is classified after stripping leading and trailing
//! whitespace, where "whitespace" means the Unicode `White_Space` property
//! that `char::is_whitespace` decides.  The trimmed form is specified by
//! `trimmed`, and `trim` computes it.

use vstd::prelude::*;

verus! {

/// Whether `char::is_whitespace` holds of `c`: the Unicode `White_Space`
/// property, a function of the character alone.
pub uninterp spec fn is_unicode_white(c: char) -> bool;

/// Relies on char::is_whitespace: whether `c` has the Unicode `White_Space`
/// property, decided by the character alone.
#[verifier::external_body]
fn is_whitespace_char(c: char) -> (r: bool)
    ensures
        r == is_unicode_white(c),
{
    c.is_whitespace()
}

/// How many characters the leading run of whitespace in `s` holds.
pub open spec fn leading_white(s: Seq<char>) -> nat
    decreases s.len(),
{
    if s.len() > 0 && is_unicode_white(s[0]) {
        1 + leading_white(s.drop_first())
    } else {
        0
    }
}

/// How many characters the trailing run of whitespace in `s` holds.
pub open spec fn trailing_white(s: Seq<char>) -> nat
    decreases s.len(),
{
    if s.len() > 0 && is_unicode_white(s[s.len() - 1]) {
        1 + trailing_white(s.drop_last())
    } else {
        0
    }
}

/// `s` without its leading and trailing whitespace.  When every character is
/// whitespace the leading and trailing runs overlap and the result is empty.
pub open spec fn trimmed(s: Seq<char>) -> Seq<char> {
    let a = leading_white(s) as int;
    let b = s.len() - trailing_white(s);
    if a <= b {
        s.subrange(a, b)
    } else {
        Seq::empty()
    }
}

/// An index that ends an all-whitespace prefix and does not itself carry a
/// whitespace character is exactly the length of the leading run.
proof fn lemma_leading_white_at(s: Seq<char>, i: int)
    requires
        0 <= i <= s.len(),
        forall|k: int| 0 <= k < i ==> is_unicode_white(s[k]),
        i == s.len() || !is_unicode_white(s[i]),
    ensures
        leading_white(s) == i,
    decreases i,
{
    if i == 0 {
    } else {
        lemma_leading_white_at(s.drop_first(), i - 1);
    }
}

/// An index that starts an all-whitespace suffix and whose predecessor is not
/// whitespace leaves exactly `s.len() - j` characters in the trailing run.
proof fn lemma_trailing_white_at(s: Seq<char>, j: int)
    requires
        0 <= j <= s.len(),
        forall|k: int| j <= k < s.len() ==> is_unicode_white(s[k]),
        j == 0 || !is_unicode_white(s[j - 1]),
    ensures
        trailing_white(s) == s.len() - j,
    decreases s.len() - j,
{
    if j == s.len() {
    } else {
        lemma_trailing_white_at(s.drop_last(), j);
    }
}

/// `s` with leading and trailing whitespace removed, as `str::trim` removes
/// it: the characters from the end of the leading whitespace run to the start
/// of the trailing one.
pub fn trim(s: &str) -> (t: String)
    ensures
        t@ == trimmed(s@),
{
    let n: usize = s.unicode_len();
    let mut i: usize = 0;
    while i < n && is_whitespace_char(s.get_char(i))
        invariant
            0 <= i <= n,
            n == s@.len(),
            forall|k: int| 0 <= k < i ==> is_unicode_white(s@[k]),
        decreases n - i,
    {
        i = i + 1;
    }
    let mut j: usize = n;
    while j > i && is_whitespace_char(s.get_char(j - 1))
        invariant
            i <= j <= n,
            n == s@.len(),
            forall|k: int| j <= k < n ==> is_unicode_white(s@[k]),
        decreases j,
    {
        j = j - 1;
    }
    proof {
        lemma_leading_white_at(s@, i as int);
        if i < n {
            assert(!is_unicode_white(s@[i as int]));
            assert(j > i) by {
                if j == i {
                    assert(is_unicode_white(s@[i as int]));
                }
            }
            lemma_trailing_white_at(s@, j as int);
        } else {
            // The whole string is whitespace: the leading run covers it, the
            // second loop never moved, and the trim is empty.
            assert(j == n);
            assert(s@.subrange(n as int, n as int) =~= Seq::<char>::empty());
            assert(trimmed(s@) =~= Seq::<char>::empty());
        }
    }
    s.substring_char(i, j).to_owned()
}

} // verus!
