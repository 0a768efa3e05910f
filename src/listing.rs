use vstd::prelude::*;

use crate::error::Error;

verus! {

#[verifier::external_type_specification]
#[verifier::external_body]
pub struct ExRegex(regex::Regex);

/// Whether `regex::Regex::new` accepts `pattern`.
pub uninterp spec fn regex_accepted(pattern: Seq<char>) -> bool;

/// Whether the regular expression `pattern` matches somewhere in `text`.
pub uninterp spec fn regex_matches(pattern: Seq<char>, text: Seq<char>) -> bool;

/// Relies on `regex::Regex::new`: whether a pattern compiles depends on the pattern alone.
/// A failure comes back as the crate's description of it.
#[verifier::external_body]
fn compile_regex(pattern: &str) -> (r: Result<regex::Regex, String>)
    ensures
        r is Ok <==> regex_accepted(pattern@),
{
    regex::Regex::new(pattern).map_err(|e| e.to_string())
}

/// A regular expression, compiled from the text it keeps.
pub struct Pattern {
    source: String,
    compiled: regex::Regex,
}

impl View for Pattern {
    type V = Seq<char>;

    closed spec fn view(&self) -> Seq<char> {
        self.source@
    }
}

/// Relies on `regex::Regex::is_match`: whether the expression matches somewhere in `text`.
/// A `Pattern` is only ever made by compiling its own source text.
#[verifier::external_body]
fn regex_is_match(pattern: &Pattern, text: &str) -> (r: bool)
    ensures
        r == regex_matches(pattern@, text@),
{
    pattern.compiled.is_match(text)
}

impl Pattern {
    /// Compiles `source`; a pattern the regex syntax refuses is an invalid argument.
    pub fn new(source: &str) -> (r: Result<Pattern, Error>)
        ensures
            r is Ok <==> regex_accepted(source@),
            r matches Ok(p) ==> p@ == source@,
            r matches Err(e) ==> e is InvalidArguments,
    {
        match compile_regex(source) {
            Ok(compiled) => Ok(Pattern { source: String::from_str(source), compiled }),
            Err(message) => Err(Error::InvalidArguments(message)),
        }
    }

    pub fn is_match(&self, text: &str) -> (r: bool)
        ensures
            r == regex_matches(self@, text@),
    {
        regex_is_match(self, text)
    }
}

/// The entries whose name or value `pattern` matches, in order.
pub open spec fn matching_entries(pattern: Seq<char>, entries: Seq<(String, String)>) -> Seq<(String, String)>
    decreases entries.len(),
{
    if entries.len() == 0 {
        Seq::<(String, String)>::empty()
    } else {
        let kept = matching_entries(pattern, entries.drop_last());
        let e = entries.last();
        if regex_matches(pattern, e.0@) || regex_matches(pattern, e.1@) {
            kept.push(e)
        } else {
            kept
        }
    }
}

/// The configured environments, as `(name, prefix)`, that `pattern` matches by name or by prefix.
pub fn select_environments(pattern: &Pattern, entries: &Vec<(String, String)>) -> (r: Vec<(String, String)>)
    ensures
        r@ == matching_entries(pattern@, entries@),
{
    let mut kept: Vec<(String, String)> = Vec::new();
    let mut i: usize = 0;
    assert(entries@.subrange(0, 0) =~= Seq::<(String, String)>::empty());
    while i < entries.len()
        invariant
            i <= entries@.len(),
            kept@ == matching_entries(pattern@, entries@.subrange(0, i as int)),
        decreases entries@.len() - i,
    {
        let (name, value) = &entries[i];
        proof {
            assert(entries@.subrange(0, i + 1).drop_last() =~= entries@.subrange(0, i as int));
        }
        if pattern.is_match(name.as_str()) || pattern.is_match(value.as_str()) {
            kept.push((name.clone(), value.clone()));
        }
        i = i + 1;
    }
    assert(entries@.subrange(0, entries@.len() as int) =~= entries@);
    kept
}

} // verus!
