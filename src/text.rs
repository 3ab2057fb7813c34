//! Small verified helpers on script text.
use vstd::prelude::*;
use vstd::string::*;

verus! {

/// Characters that end the name at the front of a call signature.
pub open spec fn is_name_stop(c: char) -> bool {
    c == ' ' || c == '('
}

/// The number of leading characters of `s` before the first name stop.
pub open spec fn name_len(s: Seq<char>) -> nat
    decreases s.len(),
{
    if s.len() == 0 || is_name_stop(s[0]) {
        0
    } else {
        1 + name_len(s.drop_first())
    }
}

/// The function name at the front of a call signature such as `open (&str)`.
pub open spec fn name_of_call(sig: Seq<char>) -> Seq<char> {
    sig.take(name_len(sig) as int)
}

proof fn lemma_name_len(s: Seq<char>, i: int)
    requires
        0 <= i <= s.len(),
        forall|j: int| 0 <= j < i ==> !is_name_stop(#[trigger] s[j]),
        i == s.len() || is_name_stop(s[i]),
    ensures
        name_len(s) == i,
    decreases i,
{
    if i > 0 {
        let t = s.drop_first();
        assert forall|j: int| 0 <= j < i - 1 implies !is_name_stop(#[trigger] t[j]) by {
            assert(t[j] == s[j + 1]);
        }
        assert(i - 1 == t.len() || t[i - 1] == s[i]);
        lemma_name_len(t, i - 1);
        assert(!is_name_stop(s[0]));
    }
}

/// Whether two texts hold the same characters.
pub fn same_text(a: &str, b: &str) -> (r: bool)
    ensures
        r == (a@ == b@),
{
    let n = a.unicode_len();
    if n != b.unicode_len() {
        return false;
    }
    let mut i: usize = 0;
    while i < n
        invariant
            n == a@.len(),
            n == b@.len(),
            i <= n,
            forall|j: int| 0 <= j < i ==> a@[j] == b@[j],
        decreases n - i,
    {
        if a.get_char(i) != b.get_char(i) {
            return false;
        }
        i = i + 1;
    }
    assert(a@ =~= b@);
    true
}

/// The function name at the front of a call signature: the text before the
/// first space or opening parenthesis.
pub fn call_name(sig: &str) -> (r: &str)
    ensures
        r@ == name_of_call(sig@),
{
    let n = sig.unicode_len();
    let mut i: usize = 0;
    while i < n && sig.get_char(i) != ' ' && sig.get_char(i) != '('
        invariant
            n == sig@.len(),
            i <= n,
            forall|j: int| 0 <= j < i ==> !is_name_stop(#[trigger] sig@[j]),
        decreases n - i,
    {
        i = i + 1;
    }
    proof {
        lemma_name_len(sig@, i as int);
    }
    sig.substring_char(0, i)
}

} // verus!
