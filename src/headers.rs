use vstd::prelude::*;

use crate::error::Error;
use crate::request::is_method_token;

verus! {

/// A header as text: its name and its value.
pub type HeaderText = (Seq<char>, Seq<char>);

/// The code of `c` with ASCII upper-case letters folded onto lower case.
pub open spec fn fold_case(c: char) -> u32 {
    if 65 <= (c as u32) && (c as u32) <= 90 {
        (c as u32 + 32) as u32
    } else {
        c as u32
    }
}

/// Header names compare without regard to ASCII case.
pub open spec fn same_name(a: Seq<char>, b: Seq<char>) -> bool {
    a.len() == b.len() && forall|i: int| 0 <= i < a.len() ==> fold_case(#[trigger] a[i]) == fold_case(b[i])
}

/// The text view of a list of headers.
pub open spec fn header_texts(hs: Seq<(String, String)>) -> Seq<HeaderText> {
    hs.map_values(|h: (String, String)| (h.0@, h.1@))
}

/// The value that `name` has in `hs`: that of the last header so named.
pub open spec fn value_of(hs: Seq<HeaderText>, name: Seq<char>) -> Option<Seq<char>>
    decreases hs.len(),
{
    if hs.len() == 0 {
        None
    } else if same_name(hs.last().0, name) {
        Some(hs.last().1)
    } else {
        value_of(hs.drop_last(), name)
    }
}

/// The header every request starts with.
pub open spec fn default_headers() -> Seq<HeaderText> {
    seq![("Content-Type"@, "application/json"@)]
}

/// `merged` holds one header for each name that `hs` gives a value, with that value.
pub open spec fn effective_headers(merged: Seq<HeaderText>, hs: Seq<HeaderText>) -> bool {
    &&& forall|j: int| 0 <= j < merged.len() ==> value_of(hs, (#[trigger] merged[j]).0) == Some(merged[j].1)
    &&& forall|n: Seq<char>| #[trigger] value_of(hs, n) is Some ==> exists|j: int|
        0 <= j < merged.len() && same_name(merged[j].0, n)
    &&& forall|i: int, j: int| 0 <= i < j < merged.len() ==> !same_name(#[trigger] merged[i].0, #[trigger] merged[j].0)
}

fn folded(c: char) -> (r: u32)
    ensures
        r == fold_case(c),
{
    let code = c as u32;
    if 65 <= code && code <= 90 {
        code + 32
    } else {
        code
    }
}

/// Whether two header names are the same name.
pub fn names_match(a: &str, b: &str) -> (r: bool)
    ensures
        r == same_name(a@, b@),
{
    let n = a.unicode_len();
    if n != b.unicode_len() {
        return false;
    }
    let mut i: usize = 0;
    while i < n
        invariant
            n == a@.len(),
            n == b@.len(),
            i <= n,
            forall|k: int| 0 <= k < i ==> fold_case(#[trigger] a@[k]) == fold_case(b@[k]),
        decreases n - i,
    {
        if folded(a.get_char(i)) != folded(b.get_char(i)) {
            return false;
        }
        i = i + 1;
    }
    true
}

proof fn lemma_same_name_reflexive(a: Seq<char>)
    ensures
        same_name(a, a),
{
}

proof fn lemma_same_name_symmetric(a: Seq<char>, b: Seq<char>)
    requires
        same_name(a, b),
    ensures
        same_name(b, a),
{
    assert forall|i: int| 0 <= i < b.len() implies fold_case(#[trigger] b[i]) == fold_case(a[i]) by {
        assert(fold_case(a[i]) == fold_case(b[i]));
    }
}

proof fn lemma_same_name_transitive(a: Seq<char>, b: Seq<char>, c: Seq<char>)
    requires
        same_name(a, b),
        same_name(b, c),
    ensures
        same_name(a, c),
{
    assert forall|i: int| 0 <= i < a.len() implies fold_case(#[trigger] a[i]) == fold_case(c[i]) by {
        assert(fold_case(a[i]) == fold_case(b[i]));
        assert(fold_case(b[i]) == fold_case(c[i]));
    }
}

proof fn lemma_value_of_push(hs: Seq<HeaderText>, h: HeaderText, n: Seq<char>)
    ensures
        value_of(hs.push(h), n) == if same_name(h.0, n) { Some(h.1) } else { value_of(hs, n) },
{
    assert(hs.push(h).drop_last() =~= hs);
}

/// The headers of a request: the default `Content-Type: application/json`, then `explicit` in
/// order, where a later header replaces an earlier one of the same name.
pub fn request_headers(explicit: &Vec<(String, String)>) -> (r: Vec<(String, String)>)
    ensures
        effective_headers(header_texts(r@), default_headers() + header_texts(explicit@)),
{
    let mut merged: Vec<(String, String)> = Vec::new();
    merged.push((String::from_str("Content-Type"), String::from_str("application/json")));
    let ghost all = default_headers() + header_texts(explicit@);
    proof {
        assert(all.subrange(0, 1) =~= default_headers());
        assert(default_headers() =~= seq![].push(default_headers()[0]));
        assert forall|n: Seq<char>| value_of(all.subrange(0, 1), n) == (if same_name(all[0].0, n) {
            Some(all[0].1)
        } else {
            None::<Seq<char>>
        }) by {
            lemma_value_of_push(seq![], all[0], n);
        }
        assert(header_texts(merged@) =~= all.subrange(0, 1));
    }
    let mut i: usize = 0;
    while i < explicit.len()
        invariant
            i <= explicit@.len(),
            all == default_headers() + header_texts(explicit@),
            effective_headers(header_texts(merged@), all.subrange(0, i + 1)),
        decreases explicit@.len() - i,
    {
        let (name, value) = &explicit[i];
        let ghost before = header_texts(merged@);
        let ghost prefix = all.subrange(0, i + 1);
        let ghost h = all[i + 1];
        proof {
            assert(all.subrange(0, i + 2) =~= prefix.push(h));
            assert(h == (name@, value@));
        }
        let mut j: usize = 0;
        let mut found = false;
        while j < merged.len() && !found
            invariant
                j <= merged@.len(),
                before == header_texts(merged@),
                found ==> j < merged@.len() && same_name(before[j as int].0, name@),
                !found ==> forall|k: int| 0 <= k < j ==> !same_name(#[trigger] before[k].0, name@),
            decreases (if found { 0 } else { merged@.len() - j + 1 }),
        {
            if names_match(merged[j].0.as_str(), name.as_str()) {
                found = true;
            } else {
                j = j + 1;
            }
        }
        if found {
            let kept = merged[j].0.clone();
            merged[j] = (kept, value.clone());
        } else {
            merged.push((name.clone(), value.clone()));
        }
        proof {
            let after = header_texts(merged@);
            let next = all.subrange(0, i + 2);
            assert forall|n: Seq<char>| value_of(next, n) == (if same_name(h.0, n) {
                Some(h.1)
            } else {
                value_of(prefix, n)
            }) by {
                lemma_value_of_push(prefix, h, n);
            }
            if found {
                assert(after =~= before.update(j as int, (before[j as int].0, h.1)));
                assert forall|k: int| 0 <= k < after.len() implies value_of(next, (#[trigger] after[k]).0)
                    == Some(after[k].1) by {
                    if k == j {
                        lemma_same_name_symmetric(before[j as int].0, h.0);
                    } else if same_name(h.0, after[k].0) {
                        lemma_same_name_transitive(before[j as int].0, h.0, after[k].0);
                        if k < j {
                            assert(!same_name(before[k].0, before[j as int].0));
                            lemma_same_name_symmetric(before[j as int].0, before[k].0);
                        }
                    }
                }
                assert forall|n: Seq<char>| #[trigger] value_of(next, n) is Some implies exists|k: int|
                    0 <= k < after.len() && same_name(after[k].0, n) by {
                    if same_name(h.0, n) {
                        lemma_same_name_transitive(before[j as int].0, h.0, n);
                        assert(same_name(after[j as int].0, n));
                    } else {
                        assert(value_of(prefix, n) is Some);
                        let k = choose|k: int| 0 <= k < before.len() && same_name(before[k].0, n);
                        assert(same_name(after[k].0, n));
                    }
                }
                assert forall|a: int, b: int| 0 <= a < b < after.len() implies !same_name(
                    #[trigger] after[a].0,
                    #[trigger] after[b].0,
                ) by {
                    assert(after[a].0 == before[a].0 && after[b].0 == before[b].0);
                }
            } else {
                assert(after =~= before.push(h));
                assert forall|k: int| 0 <= k < after.len() implies value_of(next, (#[trigger] after[k]).0)
                    == Some(after[k].1) by {
                    if k < before.len() {
                        if same_name(h.0, after[k].0) {
                            lemma_same_name_symmetric(h.0, after[k].0);
                        }
                    } else {
                        lemma_same_name_reflexive(h.0);
                    }
                }
                assert forall|n: Seq<char>| #[trigger] value_of(next, n) is Some implies exists|k: int|
                    0 <= k < after.len() && same_name(after[k].0, n) by {
                    if same_name(h.0, n) {
                        assert(same_name(after[before.len() as int].0, n));
                    } else {
                        assert(value_of(prefix, n) is Some);
                        let k = choose|k: int| 0 <= k < before.len() && same_name(before[k].0, n);
                        assert(same_name(after[k].0, n));
                    }
                }
                assert forall|a: int, b: int| 0 <= a < b < after.len() implies !same_name(
                    #[trigger] after[a].0,
                    #[trigger] after[b].0,
                ) by {
                    if b == before.len() {
                        assert(!same_name(before[a].0, h.0));
                    }
                }
            }
        }
        i = i + 1;
    }
    proof {
        assert(all.subrange(0, explicit@.len() + 1int) =~= all);
    }
    merged
}

/// An explicit header replaces the default `Content-Type`: where `explicit[k]` is the last
/// explicit header named `Content-Type` (in any ASCII case), its value is the one in effect.
pub proof fn explicit_content_type_wins(explicit: Seq<HeaderText>, k: int)
    requires
        0 <= k < explicit.len(),
        same_name(explicit[k].0, "Content-Type"@),
        forall|j: int| k < j < explicit.len() ==> !same_name(#[trigger] explicit[j].0, "Content-Type"@),
    ensures
        value_of(default_headers() + explicit, "Content-Type"@) == Some(explicit[k].1),
    decreases explicit.len(),
{
    let all = default_headers() + explicit;
    assert(all.last() == explicit.last());
    if k < explicit.len() - 1 {
        assert(all.drop_last() =~= default_headers() + explicit.drop_last());
        explicit_content_type_wins(explicit.drop_last(), k);
    }
}

#[verifier::external_type_specification]
#[verifier::external_body]
pub struct ExHeaderName(http::HeaderName);

#[verifier::external_type_specification]
#[verifier::external_body]
pub struct ExHeaderValue(http::HeaderValue);

#[verifier::external_type_specification]
#[verifier::external_body]
pub struct ExInvalidHeaderName(http::header::InvalidHeaderName);

#[verifier::external_type_specification]
#[verifier::external_body]
pub struct ExInvalidHeaderValue(http::header::InvalidHeaderValue);

/// A header name on the wire: 1 to 65535 token characters.
pub open spec fn valid_header_name(name: Seq<char>) -> bool {
    is_method_token(name) && name.len() <= 65535
}

/// A header value on the wire: no control character but tab.
pub open spec fn valid_header_value(value: Seq<char>) -> bool {
    forall|i: int| 0 <= i < value.len() ==> (#[trigger] value[i] == '\t' || (value[i] as u32 >= 32
        && value[i] as u32 != 127))
}

/// Relies on `http::HeaderName::from_bytes`: it accepts exactly the names of 1 to 65535 bytes
/// that are all token characters.
#[verifier::external_body]
fn header_name(name: &str) -> (r: Result<http::HeaderName, http::header::InvalidHeaderName>)
    ensures
        r is Ok <==> valid_header_name(name@),
{
    http::HeaderName::from_bytes(name.as_bytes())
}

/// Relies on `http::HeaderValue::from_str`: it refuses exactly the values holding a byte below
/// 32 other than tab, or the byte 127.
#[verifier::external_body]
fn header_value(value: &str) -> (r: Result<http::HeaderValue, http::header::InvalidHeaderValue>)
    ensures
        r is Ok <==> valid_header_value(value@),
{
    http::HeaderValue::from_str(value)
}

/// Every header has a valid name and value.
pub open spec fn all_valid(headers: Seq<(String, String)>) -> bool {
    forall|i: int| 0 <= i < headers.len() ==> valid_header_name((#[trigger] headers[i]).0@)
        && valid_header_value(headers[i].1@)
}

/// Checks that every header has a name and a value that HTTP allows; the first one that does
/// not is refused.
pub fn validate_headers(headers: &Vec<(String, String)>) -> (r: Result<(), Error>)
    ensures
        r is Ok <==> all_valid(headers@),
        r matches Err(e) ==> e is InvalidArguments,
{
    let mut i: usize = 0;
    while i < headers.len()
        invariant
            i <= headers@.len(),
            forall|k: int| 0 <= k < i ==> valid_header_name((#[trigger] headers@[k]).0@)
                && valid_header_value(headers@[k].1@),
        decreases headers@.len() - i,
    {
        let (name, value) = &headers[i];
        if header_name(name.as_str()).is_err() {
            let mut message = name.clone();
            message.append(" is not a valid header name");
            return Err(Error::InvalidArguments(message));
        }
        if header_value(value.as_str()).is_err() {
            let mut message = value.clone();
            message.append(" is not a valid header value");
            return Err(Error::InvalidArguments(message));
        }
        i = i + 1;
    }
    Ok(())
}

/// The `User-Agent` value `agent`, checked; a value that HTTP does not allow is refused.
pub fn user_agent(agent: &str) -> (r: Result<String, Error>)
    ensures
        r is Ok <==> valid_header_value(agent@),
        r matches Ok(v) ==> v@ == agent@,
        r matches Err(e) ==> e is InvalidArguments,
{
    match header_value(agent) {
        Ok(_) => Ok(String::from_str(agent)),
        Err(_) => {
            let mut message = String::from_str(agent);
            message.append(" is not a valid user agent");
            Err(Error::InvalidArguments(message))
        },
    }
}

} // verus!
