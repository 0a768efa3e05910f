use vstd::prelude::*;

use crate::authentication::{basic_accepted, AuthType};
use crate::error::Error;
use crate::text::{after_first, first_char_is, splits_at_first, starts_with_char};

verus! {

/// The template used when none is given: the structured body, pretty-printed.
pub const DEFAULT_TEMPLATE: &'static str = "{{ body | json_encode(pretty=true) }}";

/// Where a piece of text comes from.
#[derive(Debug, Clone, PartialEq, Eq)]
pub enum TextSource {
    /// The text itself.
    Inline(String),
    /// The contents of the file at this path.
    File(String),
    /// Everything on standard input.
    Stdin,
}

/// How a value reads as a source: `@path` names a file, a lone `-` (where `stdin_allowed`)
/// standard input, and anything else is the text itself.
pub open spec fn reads_as(text: Seq<char>, source: TextSource, stdin_allowed: bool) -> bool {
    if stdin_allowed && text == seq!['-'] {
        source is Stdin
    } else if starts_with_char(text, '@') {
        source matches TextSource::File(path) && path@ == text.drop_first()
    } else {
        source matches TextSource::Inline(t) && t@ == text
    }
}

/// The source that `text` names.
pub fn classify(text: String, stdin_allowed: bool) -> (r: TextSource)
    ensures
        reads_as(text@, r, stdin_allowed),
{
    if stdin_allowed && text.unicode_len() == 1 && text.get_char(0) == '-' {
        assert(text@ =~= seq!['-']);
        TextSource::Stdin
    } else if first_char_is(text.as_str(), '@') {
        TextSource::File(after_first(text.as_str()))
    } else {
        proof {
            if stdin_allowed && text@ == seq!['-'] {
                assert(text@[0] == '-');
            }
        }
        TextSource::Inline(text)
    }
}

/// The body of a request: nothing for an absent or empty value, else the source it names.
pub open spec fn body_reads_as(body: Option<String>, source: Option<TextSource>) -> bool {
    match body {
        Some(text) if text@.len() > 0 => source matches Some(s) && reads_as(text@, s, true),
        _ => source is None,
    }
}

/// The template of a response: the default for an absent or empty value, else the source it names.
pub open spec fn template_reads_as(template: Option<String>, source: TextSource) -> bool {
    match template {
        Some(text) if text@.len() > 0 => reads_as(text@, source, false),
        _ => source matches TextSource::Inline(t) && t@ == DEFAULT_TEMPLATE@,
    }
}

/// Where the body of a request comes from, if it has one.
pub fn body_source(body: Option<String>) -> (r: Option<TextSource>)
    ensures
        body_reads_as(body, r),
{
    match body {
        Some(text) => {
            if text.unicode_len() == 0 {
                None
            } else {
                Some(classify(text, true))
            }
        },
        None => None,
    }
}

/// Where a response template comes from.
pub fn template_source(template: Option<String>) -> (r: TextSource)
    ensures
        template_reads_as(template, r),
{
    match template {
        Some(text) => {
            if text.unicode_len() == 0 {
                TextSource::Inline(String::from_str(DEFAULT_TEMPLATE))
            } else {
                classify(text, false)
            }
        },
        None => TextSource::Inline(String::from_str(DEFAULT_TEMPLATE)),
    }
}

/// The credential of a request, as far as it can be known without reading a file.
#[derive(Debug, Clone, PartialEq, Eq)]
pub enum Credential {
    /// Fully known.
    Ready(AuthType),
    /// A bearer token held in the file at this path.
    BearerFile(String),
    /// `user:password` held in the file at this path.
    BasicFile(String),
}

/// The bearer token and the basic-auth value are usable: a bearer token, which wins, is not
/// empty; a basic-auth value, consulted only without one, is a file reference or a valid
/// `user:password`.
pub open spec fn credential_ok(bearer: Option<String>, basic: Option<String>) -> bool {
    match bearer {
        Some(token) => token@.len() > 0,
        None => match basic {
            Some(value) => value@.len() > 0 && (starts_with_char(value@, '@') || basic_accepted(value@)),
            None => true,
        },
    }
}

/// `c` is the credential given by a bearer token, else by a basic-auth value, else none.
pub open spec fn credential_from(bearer: Option<String>, basic: Option<String>, c: Credential) -> bool {
    match bearer {
        Some(token) => if starts_with_char(token@, '@') {
            c matches Credential::BearerFile(path) && path@ == token@.drop_first()
        } else {
            c == Credential::Ready(AuthType::Bearer(token))
        },
        None => match basic {
            Some(value) => if starts_with_char(value@, '@') {
                c matches Credential::BasicFile(path) && path@ == value@.drop_first()
            } else {
                c matches Credential::Ready(AuthType::Basic { username, password })
                    && splits_at_first(value@, ':', username@, password@)
            },
            None => c == Credential::Ready(AuthType::Anonymous),
        },
    }
}

/// The credential of a request; a bearer token takes precedence over basic authentication.
pub fn resolve_credential(bearer: Option<String>, basic: Option<String>) -> (r: Result<Credential, Error>)
    ensures
        r is Ok <==> credential_ok(bearer, basic),
        r matches Ok(c) ==> credential_from(bearer, basic, c),
        r matches Err(e) ==> e is InvalidArguments,
{
    match bearer {
        Some(token) => {
            if token.unicode_len() == 0 {
                Err(Error::InvalidArguments(String::from_str("no bearer token supplied")))
            } else if first_char_is(token.as_str(), '@') {
                Ok(Credential::BearerFile(after_first(token.as_str())))
            } else {
                Ok(Credential::Ready(AuthType::bearer_from_string(token)))
            }
        },
        None => match basic {
            Some(value) => {
                if value.unicode_len() == 0 {
                    Err(Error::InvalidArguments(String::from_str("no basic authentication supplied")))
                } else if first_char_is(value.as_str(), '@') {
                    Ok(Credential::BasicFile(after_first(value.as_str())))
                } else {
                    match AuthType::basic_from_string(value.as_str()) {
                        Ok(auth) => Ok(Credential::Ready(auth)),
                        Err(e) => Err(e),
                    }
                }
            },
            None => Ok(Credential::Ready(AuthType::Anonymous)),
        },
    }
}

impl Credential {
    /// The credential once `content`, the text of the file it names, has been read
    /// (a credential that names no file ignores it).
    pub fn with_file_content(self, content: String) -> (r: Result<AuthType, Error>)
        ensures
            self matches Credential::Ready(a) ==> r == Ok::<AuthType, Error>(a),
            self is BearerFile ==> r == Ok::<AuthType, Error>(AuthType::Bearer(content)),
            self is BasicFile ==> (r is Ok <==> basic_accepted(content@)),
            self is BasicFile ==> (r matches Ok(a) ==> (a matches AuthType::Basic { username, password }
                && splits_at_first(content@, ':', username@, password@))),
            r matches Err(e) ==> e is InvalidArguments,
    {
        match self {
            Credential::Ready(auth) => Ok(auth),
            Credential::BearerFile(_) => Ok(AuthType::bearer_from_string(content)),
            Credential::BasicFile(_) => AuthType::basic_from_string(content.as_str()),
        }
    }
}

/// A bearer token takes precedence: whatever basic-auth value is also given, a non-empty
/// bearer token that names no file gives bearer authentication with exactly that token.
pub proof fn bearer_takes_precedence(token: String, basic: Option<String>, c: Credential)
    requires
        token@.len() > 0,
        !starts_with_char(token@, '@'),
        credential_from(Some(token), basic, c),
    ensures
        credential_ok(Some(token), basic),
        c == Credential::Ready(AuthType::Bearer(token)),
{
}

/// Without a template, or with an empty one, responses are rendered with the default template,
/// which prints the structured body pretty-printed; `@path` names a template file.
pub proof fn template_default(template: Option<String>, source: TextSource)
    requires
        template_reads_as(template, source),
    ensures
        (template is None || template->Some_0@.len() == 0) ==> (source matches TextSource::Inline(t)
            && t@ == DEFAULT_TEMPLATE@),
        (template is Some && starts_with_char(template->Some_0@, '@')) ==> (source matches TextSource::File(p)
            && p@ == template->Some_0@.drop_first()),
{
}

} // verus!
