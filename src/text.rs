use vstd::prelude::*;

verus! {

/// `s` is non-empty and its first character is `c`.
pub open spec fn starts_with_char(s: Seq<char>, c: char) -> bool {
    s.len() > 0 && s[0] == c
}

/// `s` with every trailing `c` removed.
pub open spec fn without_trailing(s: Seq<char>, c: char) -> Seq<char>
    decreases s.len(),
{
    if s.len() > 0 && s.last() == c {
        without_trailing(s.drop_last(), c)
    } else {
        s
    }
}

/// `whole` is `left`, then `sep`, then `right`, and `left` holds no `sep`:
/// the split of `whole` at its first `sep`.
pub open spec fn splits_at_first(whole: Seq<char>, sep: char, left: Seq<char>, right: Seq<char>) -> bool {
    &&& whole == left + seq![sep] + right
    &&& !left.contains(sep)
}

/// A text splits at its first `sep` in one way only.
pub proof fn lemma_split_unique(whole: Seq<char>, sep: char, l1: Seq<char>, r1: Seq<char>, l2: Seq<char>, r2: Seq<char>)
    requires
        splits_at_first(whole, sep, l1, r1),
        splits_at_first(whole, sep, l2, r2),
    ensures
        l1 == l2,
        r1 == r2,
{
    assert(whole[l1.len() as int] == sep);
    assert(whole[l2.len() as int] == sep);
    if l1.len() < l2.len() {
        assert(l2[l1.len() as int] == sep);
    } else if l2.len() < l1.len() {
        assert(l1[l2.len() as int] == sep);
    }
    assert(l1 =~= whole.subrange(0, l1.len() as int));
    assert(l2 =~= whole.subrange(0, l2.len() as int));
    assert(r1 =~= whole.subrange(l1.len() + 1int, whole.len() as int));
    assert(r2 =~= whole.subrange(l2.len() + 1int, whole.len() as int));
}

/// Whether `s` starts with `c`.
pub fn first_char_is(s: &str, c: char) -> (r: bool)
    ensures
        r == starts_with_char(s@, c),
{
    s.unicode_len() > 0 && s.get_char(0) == c
}

/// `s` without its first character.
pub fn after_first(s: &str) -> (r: String)
    requires
        s@.len() > 0,
    ensures
        r@ == s@.drop_first(),
{
    let n = s.unicode_len();
    let rest = s.substring_char(1, n);
    assert(rest@ =~= s@.drop_first());
    String::from_str(rest)
}

/// `s` with every trailing `c` removed.
pub fn trim_trailing(s: &str, c: char) -> (r: String)
    ensures
        r@ == without_trailing(s@, c),
{
    let mut end = s.unicode_len();
    assert(s@.subrange(0, end as int) =~= s@);
    while end > 0 && s.get_char(end - 1) == c
        invariant
            end <= s@.len(),
            without_trailing(s@.subrange(0, end as int), c) == without_trailing(s@, c),
        decreases end,
    {
        assert(s@.subrange(0, end as int).drop_last() =~= s@.subrange(0, end - 1));
        end = end - 1;
    }
    let kept = s.substring_char(0, end);
    String::from_str(kept)
}

/// The split of `s` at its first `sep`, or `None` when `s` holds no `sep`.
pub fn split_once_char(s: &str, sep: char) -> (r: Option<(String, String)>)
    ensures
        r is None <==> !s@.contains(sep),
        r matches Some((left, right)) ==> splits_at_first(s@, sep, left@, right@),
{
    let n = s.unicode_len();
    let mut i: usize = 0;
    while i < n
        invariant
            n == s@.len(),
            i <= n,
            forall|k: int| 0 <= k < i ==> s@[k] != sep,
        decreases n - i,
    {
        if s.get_char(i) == sep {
            let left = String::from_str(s.substring_char(0, i));
            let right = String::from_str(s.substring_char(i + 1, n));
            assert(s@ =~= left@ + seq![sep] + right@);
            assert(!left@.contains(sep));
            return Some((left, right));
        }
        i = i + 1;
    }
    None
}

/// What `str::trim` leaves of `s`: the text without leading and trailing white space.
pub uninterp spec fn trimmed_of(s: Seq<char>) -> Seq<char>;

/// Relies on `str::trim`: the result depends on the characters alone.
#[verifier::external_body]
pub(crate) fn trimmed(s: &str) -> (r: String)
    ensures
        r@ == trimmed_of(s@),
{
    s.trim().to_string()
}

/// What `str::to_uppercase` makes of `s`.
pub uninterp spec fn upper_of(s: Seq<char>) -> Seq<char>;

/// Relies on `str::to_uppercase`: the result depends on the characters alone.
#[verifier::external_body]
pub(crate) fn uppercase(s: &str) -> (r: String)
    ensures
        r@ == upper_of(s@),
{
    s.to_uppercase()
}

} // verus!
