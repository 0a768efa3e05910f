use vstd::prelude::*;

use crate::error::Error;
use crate::request::{built_from, RequestArgs, RequestArgsBuilder};

verus! {

#[verifier::external_type_specification]
#[verifier::external_body]
pub struct ExTera(tera::Tera);

#[verifier::external_type_specification]
#[verifier::external_body]
pub struct ExContext(tera::Context);

#[verifier::external_type_specification]
#[verifier::external_body]
pub struct ExValue(serde_json::Value);

/// The name the compiled template is registered and rendered under.
pub const TEMPLATE_NAME: &'static str = "_";

/// Whether Tera accepts `text` as a template registered under `name`.
pub uninterp spec fn template_accepted(name: Seq<char>, text: Seq<char>) -> bool;

/// Relies on `tera::Tera::add_raw_template`, on a fresh `Tera::default()`: whether the
/// template compiles depends on its name and text alone. A failure comes back as Tera's
/// description of it.
#[verifier::external_body]
fn compile_raw(name: &str, text: &str) -> (r: Result<tera::Tera, String>)
    ensures
        r is Ok <==> template_accepted(name@, text@),
{
    let mut tera = tera::Tera::default();
    match tera.add_raw_template(name, text) {
        Ok(()) => Ok(tera),
        Err(e) => Err(e.to_string()),
    }
}

/// Whether `serde_json` parses `text` as a JSON value.
pub uninterp spec fn json_accepted(text: Seq<char>) -> bool;

/// Relies on `serde_json::from_str::<serde_json::Value>`: whether the text parses depends on
/// the text alone.
#[verifier::external_body]
fn parse_json(text: &str) -> (r: Option<serde_json::Value>)
    ensures
        r is Some <==> json_accepted(text@),
{
    serde_json::from_str::<serde_json::Value>(text).ok()
}

/// Relies on `tera::Context::new`: an empty context.
#[verifier::external_body]
fn new_context() -> tera::Context {
    tera::Context::new()
}

/// Relies on `tera::Context::insert`: `value` is stored under `key`.
#[verifier::external_body]
fn context_insert(context: &mut tera::Context, key: &str, value: &serde_json::Value) {
    context.insert(key, value)
}

/// Relies on `serde_json::Value::from`: the status as a JSON number.
#[verifier::external_body]
fn status_value(status: u16) -> serde_json::Value {
    serde_json::Value::from(status)
}

/// Relies on `tera::Context::insert`: `text` is stored, as a string, under `key`.
#[verifier::external_body]
fn context_insert_text(context: &mut tera::Context, key: &str, text: &str) {
    context.insert(key, text)
}

/// Compiles the template `text`; malformed template syntax is a `TemplateError`.
pub fn compile_template(text: &str) -> (r: Result<tera::Tera, Error>)
    ensures
        r is Ok <==> template_accepted(TEMPLATE_NAME@, text@),
        r matches Err(e) ==> e is TemplateError,
{
    match compile_raw(TEMPLATE_NAME, text) {
        Ok(tera) => Ok(tera),
        Err(message) => Err(Error::TemplateError(message)),
    }
}

/// A status in the 2xx range.
pub open spec fn is_success(status: u16) -> bool {
    200 <= status && status <= 299
}

/// The compiled templates of a request.
pub struct Templates {
    /// Rendered for a successful response, and for any response without a failure template.
    pub success: tera::Tera,
    /// Rendered for an unsuccessful response, where given.
    pub failure: Option<tera::Tera>,
}

/// A response with `status` is rendered with the failure template.
pub open spec fn uses_failure_template_spec(status: u16, has_failure_template: bool) -> bool {
    !is_success(status) && has_failure_template
}

/// Whether a response with `status` is rendered with the failure template.
pub fn uses_failure_template(status: u16, has_failure_template: bool) -> (r: bool)
    ensures
        r == uses_failure_template_spec(status, has_failure_template),
{
    !(200 <= status && status <= 299) && has_failure_template
}

impl Templates {
    /// The template a response with `status` is rendered with: the failure template for an
    /// unsuccessful status where one was given, else the success template.
    pub fn template_for(&self, status: u16) -> (r: &tera::Tera)
        ensures
            *r == (if uses_failure_template_spec(status, self.failure is Some) {
                self.failure->Some_0
            } else {
                self.success
            }),
    {
        match &self.failure {
            Some(failure) => {
                if uses_failure_template(status, true) {
                    failure
                } else {
                    &self.success
                }
            },
            None => &self.success,
        }
    }
}

/// A response body, read as structured data where it is JSON.
pub enum ResponseBody {
    /// Not JSON: written out as it is, without a template.
    Verbatim(String),
    /// JSON: rendered with a template.
    Structured(serde_json::Value),
}

/// Reads a response body: JSON becomes a structured value, anything else stays text.
pub fn read_response_body(body: String) -> (r: ResponseBody)
    ensures
        !json_accepted(body@) ==> r == ResponseBody::Verbatim(body),
        json_accepted(body@) ==> r is Structured,
{
    match parse_json(body.as_str()) {
        Some(value) => ResponseBody::Structured(value),
        None => ResponseBody::Verbatim(body),
    }
}

/// The context a structured response is rendered with: the parsed body as `body`, the status
/// as `status` and `resp_status`, the protocol version as `resp_http_version`, each header as
/// `resp_headers_<name>`, and the raw text as `resp_body`.
pub fn response_context(
    value: &serde_json::Value,
    status: u16,
    version: &str,
    headers: &Vec<(String, String)>,
    raw: &str,
) -> tera::Context {
    let mut context = new_context();
    context_insert(&mut context, "body", value);
    let status_number = status_value(status);
    context_insert(&mut context, "status", &status_number);
    context_insert(&mut context, "resp_status", &status_number);
    context_insert_text(&mut context, "resp_http_version", version);
    let mut i: usize = 0;
    while i < headers.len()
        invariant
            i <= headers@.len(),
        decreases headers@.len() - i,
    {
        let (name, text) = &headers[i];
        let mut key = String::from_str("resp_headers_");
        key.append(name.as_str());
        context_insert_text(&mut context, key.as_str(), text.as_str());
        i = i + 1;
    }
    context_insert_text(&mut context, "resp_body", raw);
    context
}

/// The request is shown before anything else happens.
pub open spec fn shows(a: RequestArgs) -> bool {
    a.verbose || a.dry
}

/// The request goes out over the network.
pub open spec fn sends(a: RequestArgs) -> bool {
    !a.dry
}

/// One `name: value` line per header, in order.
pub open spec fn header_lines(hs: Seq<(String, String)>) -> Seq<char>
    decreases hs.len(),
{
    if hs.len() == 0 {
        Seq::<char>::empty()
    } else {
        header_lines(hs.drop_last()) + hs.last().0@ + ": "@ + hs.last().1@ + "\n"@
    }
}

/// What is shown of a request: `METHOD url`, its headers, and whether it carries a body.
pub open spec fn summary_of(a: RequestArgs) -> Seq<char> {
    a.method@ + " "@ + a.url@ + "\n"@ + header_lines(a.headers@) + (if a.body is Some {
        "with body\n"@
    } else {
        Seq::<char>::empty()
    })
}

impl RequestArgs {
    /// The text shown of the request before it is sent, or instead of sending it.
    pub fn summary(&self) -> (r: String)
        ensures
            r@ == summary_of(*self),
    {
        let mut text = self.method.clone();
        text.append(" ");
        text.append(self.url.as_str());
        text.append("\n");
        let ghost head = text@;
        let mut i: usize = 0;
        assert(self.headers@.subrange(0, 0) =~= Seq::<(String, String)>::empty());
        while i < self.headers.len()
            invariant
                i <= self.headers@.len(),
                text@ == head + header_lines(self.headers@.subrange(0, i as int)),
            decreases self.headers@.len() - i,
        {
            let (name, value) = &self.headers[i];
            text.append(name.as_str());
            text.append(": ");
            text.append(value.as_str());
            text.append("\n");
            proof {
                let next = self.headers@.subrange(0, i + 1);
                assert(next.drop_last() =~= self.headers@.subrange(0, i as int));
                assert(text@ =~= head + header_lines(next));
            }
            i = i + 1;
        }
        assert(self.headers@.subrange(0, self.headers@.len() as int) =~= self.headers@);
        if self.body.is_some() {
            text.append("with body\n");
        }
        text
    }

    pub fn shows_request(&self) -> (r: bool)
        ensures
            r == shows(*self),
    {
        self.verbose || self.dry
    }

    pub fn sends_request(&self) -> (r: bool)
        ensures
            r == sends(*self),
    {
        !self.dry
    }
}

/// A dry run shows the request and never sends it: building from a builder on which `dry` was
/// set gives a request that is shown and not sent, whatever `verbose` was.
pub proof fn dry_run_shows_and_never_sends(b: RequestArgsBuilder, a: RequestArgs)
    requires
        built_from(RequestArgsBuilder { verbose: true, dry: true, ..b }, a),
    ensures
        a.verbose,
        a.dry,
        shows(a),
        !sends(a),
{
}

} // verus!
