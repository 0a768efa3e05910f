use vstd::prelude::*;

use crate::error::Error;
use crate::text::{split_once_char, splits_at_first, trimmed, trimmed_of};

verus! {

/// `pair` is the trimmed name and the trimmed value of `item`, split at its first `sep`.
pub open spec fn pair_of(item: Seq<char>, sep: char, pair: (String, String)) -> bool {
    exists|left: Seq<char>, right: Seq<char>|
        #[trigger] splits_at_first(item, sep, left, right)
        && pair.0@ == trimmed_of(left)
        && pair.1@ == trimmed_of(right)
}

/// Every item holds the separator.
pub open spec fn all_hold(items: Seq<String>, sep: char) -> bool {
    forall|i: int| 0 <= i < items.len() ==> #[trigger] items[i]@.contains(sep)
}

/// Splits each `name<sep>value` item into a trimmed pair, in order.
/// An item without the separator is refused with a message naming it and `what` it should be.
pub fn parse_pairs(items: &Vec<String>, sep: char, what: &str) -> (r: Result<Vec<(String, String)>, Error>)
    ensures
        r is Ok <==> all_hold(items@, sep),
        r matches Ok(pairs) ==> pairs@.len() == items@.len()
            && forall|i: int| 0 <= i < items@.len() ==> pair_of(items@[i]@, sep, #[trigger] pairs@[i]),
        r matches Err(e) ==> e is InvalidArguments,
{
    let mut pairs: Vec<(String, String)> = Vec::new();
    let mut i: usize = 0;
    while i < items.len()
        invariant
            i <= items@.len(),
            pairs@.len() == i,
            forall|k: int| 0 <= k < i ==> #[trigger] items@[k]@.contains(sep),
            forall|k: int| 0 <= k < i ==> pair_of(items@[k]@, sep, #[trigger] pairs@[k]),
        decreases items@.len() - i,
    {
        let item = &items[i];
        match split_once_char(item.as_str(), sep) {
            None => {
                let mut message = item.clone();
                message.append(" is not a valid ");
                message.append(what);
                return Err(Error::InvalidArguments(message));
            },
            Some((left, right)) => {
                let name = trimmed(left.as_str());
                let value = trimmed(right.as_str());
                assert(splits_at_first(item@, sep, left@, right@));
                pairs.push((name, value));
                assert(pair_of(items@[i as int]@, sep, pairs@[i as int]));
            },
        }
        i = i + 1;
    }
    Ok(pairs)
}

/// The value that `key` has in `pairs`: that of the last pair with this key.
pub open spec fn last_value(pairs: Seq<(String, String)>, key: Seq<char>) -> Option<Seq<char>>
    decreases pairs.len(),
{
    if pairs.len() == 0 {
        None
    } else if pairs.last().0@ == key {
        Some(pairs.last().1@)
    } else {
        last_value(pairs.drop_last(), key)
    }
}

/// `kept` holds one pair for each key of `pairs`, with the value the last pair gives it.
pub open spec fn one_per_key(kept: Seq<(String, String)>, pairs: Seq<(String, String)>) -> bool {
    &&& forall|j: int| 0 <= j < kept.len() ==> last_value(pairs, (#[trigger] kept[j]).0@) == Some(kept[j].1@)
    &&& forall|k: Seq<char>| #[trigger] last_value(pairs, k) is Some ==> exists|j: int|
        0 <= j < kept.len() && kept[j].0@ == k
    &&& forall|i: int, j: int| 0 <= i < j < kept.len() ==> (#[trigger] kept[i]).0@ != (#[trigger] kept[j]).0@
}

proof fn lemma_last_value_push(pairs: Seq<(String, String)>, p: (String, String), k: Seq<char>)
    ensures
        last_value(pairs.push(p), k) == if p.0@ == k { Some(p.1@) } else { last_value(pairs, k) },
{
    assert(pairs.push(p).drop_last() =~= pairs);
}

/// One pair per key, where a later pair replaces an earlier one with the same key.
pub fn last_per_key(pairs: &Vec<(String, String)>) -> (r: Vec<(String, String)>)
    ensures
        one_per_key(r@, pairs@),
{
    let mut kept: Vec<(String, String)> = Vec::new();
    let mut i: usize = 0;
    assert(pairs@.subrange(0, 0) =~= Seq::<(String, String)>::empty());
    while i < pairs.len()
        invariant
            i <= pairs@.len(),
            one_per_key(kept@, pairs@.subrange(0, i as int)),
        decreases pairs@.len() - i,
    {
        let (key, value) = &pairs[i];
        let ghost before = kept@;
        let ghost prefix = pairs@.subrange(0, i as int);
        let ghost p = pairs@[i as int];
        proof {
            assert(pairs@.subrange(0, i + 1) =~= prefix.push(p));
        }
        let mut j: usize = 0;
        let mut found = false;
        while j < kept.len() && !found
            invariant
                j <= kept@.len(),
                before == kept@,
                found ==> j < kept@.len() && before[j as int].0@ == key@,
                !found ==> forall|m: int| 0 <= m < j ==> (#[trigger] before[m]).0@ != key@,
            decreases (if found { 0 } else { kept@.len() - j + 1 }),
        {
            if kept[j].0 == *key {
                found = true;
            } else {
                j = j + 1;
            }
        }
        if found {
            let same = kept[j].0.clone();
            kept[j] = (same, value.clone());
        } else {
            kept.push((key.clone(), value.clone()));
        }
        proof {
            let after = kept@;
            let next = pairs@.subrange(0, i + 1);
            assert forall|k: Seq<char>| last_value(next, k) == (if p.0@ == k {
                Some(p.1@)
            } else {
                last_value(prefix, k)
            }) by {
                lemma_last_value_push(prefix, p, k);
            }
            if found {
                assert forall|m: int| 0 <= m < after.len() implies last_value(next, (#[trigger] after[m]).0@)
                    == Some(after[m].1@) by {
                    if m != j {
                        assert(after[m] == before[m]);
                    }
                }
                assert forall|k: Seq<char>| #[trigger] last_value(next, k) is Some implies exists|m: int|
                    0 <= m < after.len() && after[m].0@ == k by {
                    if p.0@ == k {
                        assert(after[j as int].0@ == k);
                    } else {
                        assert(last_value(prefix, k) is Some);
                        let m = choose|m: int| 0 <= m < before.len() && before[m].0@ == k;
                        assert(after[m].0@ == k);
                    }
                }
                assert forall|a: int, b: int| 0 <= a < b < after.len() implies (#[trigger] after[a]).0@
                    != (#[trigger] after[b]).0@ by {
                    assert(after[a].0@ == before[a].0@ && after[b].0@ == before[b].0@);
                }
            } else {
                assert(after =~= before.push(p));
                assert forall|k: Seq<char>| #[trigger] last_value(next, k) is Some implies exists|m: int|
                    0 <= m < after.len() && after[m].0@ == k by {
                    if p.0@ == k {
                        assert(after[before.len() as int].0@ == k);
                    } else {
                        assert(last_value(prefix, k) is Some);
                        let m = choose|m: int| 0 <= m < before.len() && before[m].0@ == k;
                        assert(after[m].0@ == k);
                    }
                }
            }
        }
        i = i + 1;
    }
    assert(pairs@.subrange(0, pairs@.len() as int) =~= pairs@);
    kept
}

} // verus!
