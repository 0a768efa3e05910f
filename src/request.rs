use vstd::prelude::*;

use crate::error::Error;
use crate::headers::{
    all_valid, default_headers, effective_headers, header_texts, request_headers, validate_headers,
};
use crate::pairs::{all_hold, last_per_key, one_per_key, pair_of, parse_pairs};
use crate::source::{
    body_reads_as, body_source, credential_from, credential_ok, resolve_credential, template_reads_as,
    template_source, Credential, TextSource,
};
use crate::text::{split_once_char, starts_with_char, trim_trailing, upper_of, uppercase, without_trailing};

verus! {

#[verifier::external_type_specification]
#[verifier::external_body]
pub struct ExMethod(http::Method);

#[verifier::external_type_specification]
#[verifier::external_body]
pub struct ExInvalidMethod(http::method::InvalidMethod);

#[verifier::external_type_specification]
#[verifier::external_body]
pub struct ExUrl(url::Url);

#[verifier::external_type_specification]
#[verifier::external_body]
pub struct ExParseError(url::ParseError);

#[verifier::external_type_specification]
#[verifier::external_body]
pub struct ExConfig(config::Config);

#[verifier::external_type_specification]
#[verifier::external_body]
pub struct ExConfigError(config::ConfigError);

/// A character that may stand in an HTTP token (RFC 9110, section 5.6.2).
pub open spec fn is_token_char(c: char) -> bool {
    ||| ('0' <= c && c <= '9')
    ||| ('A' <= c && c <= 'Z')
    ||| ('a' <= c && c <= 'z')
    ||| c == '!' || c == '#' || c == '$' || c == '%' || c == '&' || c == '\'' || c == '*'
    ||| c == '+' || c == '-' || c == '.' || c == '^' || c == '_' || c == '`' || c == '|'
    ||| c == '~'
}

/// A method name: a non-empty run of token characters.
pub open spec fn is_method_token(s: Seq<char>) -> bool {
    s.len() > 0 && forall|i: int| 0 <= i < s.len() ==> is_token_char(#[trigger] s[i])
}

/// Relies on `http::Method::from_str`: it accepts exactly the non-empty runs of token characters.
#[verifier::external_body]
fn parse_method(s: &str) -> (r: Result<http::Method, http::method::InvalidMethod>)
    ensures
        r is Ok <==> is_method_token(s@),
{
    <http::Method as std::str::FromStr>::from_str(s)
}

/// Whether `url::Url::parse` accepts the text as an absolute URL.
pub uninterp spec fn url_accepts(s: Seq<char>) -> bool;

/// Relies on `url::Url::parse`: whether the text parses depends on the text alone.
#[verifier::external_body]
fn parse_url(s: &str) -> (r: Result<url::Url, url::ParseError>)
    ensures
        r is Ok <==> url_accepts(s@),
{
    url::Url::parse(s)
}

/// Relies on `config::Config::get_string`: the value stored under `key`, or why there is none.
/// A key with a `[` could hold a negative array subscript, which the crate's path lookup can
/// turn into an arithmetic overflow; such keys are left out.
#[verifier::external_body]
pub(crate) fn config_string(config: &config::Config, key: &str) -> Result<String, config::ConfigError>
    requires
        !key@.contains('['),
{
    config.get_string(key)
}

/// The configuration key under which the URL prefix of environment `env` is stored.
pub open spec fn environment_key(env: Seq<char>) -> Seq<char> {
    "environments."@ + env
}

/// The key `environments.<env>`.
pub fn environment_key_of(env: &str) -> (r: String)
    ensures
        r@ == environment_key(env@),
{
    let mut key = String::from_str("environments.");
    key.append(env);
    key
}

/// An environment name may not hold `[`: the configuration would read it as an array subscript.
pub open spec fn environment_name_ok(env: Seq<char>) -> bool {
    !env.contains('[')
}

/// The value configured for environment `env`; a name that is not allowed is refused as a
/// configuration error before any lookup.
pub fn lookup_environment(env: &str, config: &config::Config) -> (r: Result<String, Error>)
    ensures
        !environment_name_ok(env@) ==> (r matches Err(e) && e is ConfigError),
        r matches Err(e) ==> e is ConfigError,
{
    if split_once_char(env, '[').is_some() {
        let mut message = String::from_str(env);
        message.append(" is not a valid environment name");
        return Err(Error::ConfigError(message));
    }
    let key = environment_key_of(env);
    proof {
        reveal_strlit("environments.");
        assert(!key@.contains('[')) by {
            if key@.contains('[') {
                let i = choose|i: int| 0 <= i < key@.len() && key@[i] == '[';
                if i >= 13 {
                    assert(env@[i - 13] == '[');
                }
            }
        }
    }
    match config_string(config, key.as_str()) {
        Ok(value) => Ok(value),
        Err(e) => Err(config_failure(&e)),
    }
}

/// A configuration failure, with the configuration library's own description.
pub fn config_failure(e: &config::ConfigError) -> (r: Error)
    ensures
        r is ConfigError,
{
    Error::ConfigError(e.to_string())
}

/// The HTTP protocol versions a request may ask for.
#[derive(Debug, Clone, Copy, PartialEq, Eq)]
pub enum HttpVersion {
    Http09,
    Http10,
    Http11,
    Http2,
    Http3,
}

/// The version that `s` names: `0.9`, `1.0`, `1.1`, `2.0` or `3.0`.
pub open spec fn version_named(s: Seq<char>) -> Option<HttpVersion> {
    if s == seq!['0', '.', '9'] {
        Some(HttpVersion::Http09)
    } else if s == seq!['1', '.', '0'] {
        Some(HttpVersion::Http10)
    } else if s == seq!['1', '.', '1'] {
        Some(HttpVersion::Http11)
    } else if s == seq!['2', '.', '0'] {
        Some(HttpVersion::Http2)
    } else if s == seq!['3', '.', '0'] {
        Some(HttpVersion::Http3)
    } else {
        None
    }
}

/// The version that `s` names; any other text is refused.
pub fn parse_http_version(s: &str) -> (r: Result<HttpVersion, Error>)
    ensures
        version_named(s@) matches Some(v) ==> r == Ok::<HttpVersion, Error>(v),
        version_named(s@) is None ==> (r matches Err(e) && e is InvalidArguments),
{
    if s.unicode_len() == 3 && s.get_char(1) == '.' {
        let major = s.get_char(0);
        let minor = s.get_char(2);
        assert(s@ =~= seq![major, '.', minor]);
        if major == '0' && minor == '9' {
            return Ok(HttpVersion::Http09);
        } else if major == '1' && minor == '0' {
            return Ok(HttpVersion::Http10);
        } else if major == '1' && minor == '1' {
            return Ok(HttpVersion::Http11);
        } else if major == '2' && minor == '0' {
            return Ok(HttpVersion::Http2);
        } else if major == '3' && minor == '0' {
            return Ok(HttpVersion::Http3);
        }
    }
    Err(Error::InvalidArguments(String::from_str("invalid http version")))
}

/// A validated request, ready to be sent once the files it names have been read.
#[derive(Debug)]
pub struct RequestArgs {
    /// The method, upper case.
    pub method: String,
    /// The absolute URL.
    pub url: String,
    pub body: Option<TextSource>,
    /// The template rendered for a successful response.
    pub template: TextSource,
    /// The template rendered for an unsuccessful response, where one was given.
    pub failure_template: Option<TextSource>,
    /// The file the output goes to; standard output where `None`.
    pub output: Option<String>,
    pub credential: Credential,
    /// The headers in effect, one per name.
    pub headers: Vec<(String, String)>,
    /// The query parameters, one per key.
    pub query: Vec<(String, String)>,
    /// The form fields, one per key.
    pub form: Vec<(String, String)>,
    pub http_version: Option<HttpVersion>,
    pub verbose: bool,
    pub dry: bool,
}

/// The fields of a request as given, before any of them is checked.
#[derive(Debug, Clone)]
pub struct RequestArgsBuilder {
    pub method: Option<String>,
    pub uri: Option<String>,
    pub body: Option<String>,
    /// The URL prefix of the chosen environment, without trailing `/`.
    pub prefix: Option<String>,
    pub template: Option<String>,
    pub failure_template: Option<String>,
    pub output: Option<String>,
    pub basic_auth: Option<String>,
    pub bearer_token: Option<String>,
    pub headers: Vec<(String, String)>,
    pub query: Vec<(String, String)>,
    pub form: Vec<(String, String)>,
    pub http_version: Option<HttpVersion>,
    pub verbose: bool,
    pub dry: bool,
}

/// The method of a request: the given one upper-cased, else `GET`.
pub open spec fn method_of(method: Option<String>) -> Seq<char> {
    match method {
        Some(m) => upper_of(m@),
        None => "GET"@,
    }
}

/// The URL of a request: the environment prefix, if any, then the given URI, else `/`.
pub open spec fn url_of(prefix: Option<String>, uri: Option<String>) -> Seq<char> {
    let head = match prefix {
        Some(p) => p@,
        None => Seq::<char>::empty(),
    };
    let tail = match uri {
        Some(u) => u@,
        None => "/"@,
    };
    head + tail
}

/// The positional arguments, by their number: a URI; a method and a URI; a method, a URI and
/// a body. Fields that no argument sets keep their value.
pub open spec fn with_positional(b: RequestArgsBuilder, args: Seq<String>) -> RequestArgsBuilder {
    if args.len() == 0 {
        b
    } else if args.len() == 1 {
        RequestArgsBuilder { uri: Some(args[0]), ..b }
    } else if args.len() == 2 {
        RequestArgsBuilder { method: Some(args[0]), uri: Some(args[1]), ..b }
    } else {
        RequestArgsBuilder { method: Some(args[0]), uri: Some(args[1]), body: Some(args[2]), ..b }
    }
}

/// `a` is what building `b` gives.
pub open spec fn built_from(b: RequestArgsBuilder, a: RequestArgs) -> bool {
    &&& a.method@ == method_of(b.method)
    &&& a.url@ == url_of(b.prefix, b.uri)
    &&& body_reads_as(b.body, a.body)
    &&& template_reads_as(b.template, a.template)
    &&& match b.failure_template {
        Some(t) => a.failure_template matches Some(s) && template_reads_as(Some(t), s),
        None => a.failure_template is None,
    }
    &&& a.output == b.output
    &&& credential_from(b.bearer_token, b.basic_auth, a.credential)
    &&& effective_headers(header_texts(a.headers@), default_headers() + header_texts(b.headers@))
    &&& a.query == b.query
    &&& a.form == b.form
    &&& a.http_version == b.http_version
    &&& a.verbose == b.verbose
    &&& a.dry == b.dry
}

/// `pairs` are the items split at `sep`, in order.
pub open spec fn pairs_of(items: Seq<String>, sep: char, pairs: Seq<(String, String)>) -> bool {
    pairs.len() == items.len() && forall|i: int| 0 <= i < items.len() ==> pair_of(items[i]@, sep, #[trigger] pairs[i])
}

proof fn lemma_without_trailing_idempotent(s: Seq<char>, c: char)
    ensures
        without_trailing(without_trailing(s, c), c) == without_trailing(s, c),
    decreases s.len(),
{
    if s.len() > 0 && s.last() == c {
        lemma_without_trailing_idempotent(s.drop_last(), c);
    }
}

impl RequestArgsBuilder {
    pub fn new() -> (r: RequestArgsBuilder)
        ensures
            r.method is None && r.uri is None && r.body is None && r.prefix is None,
            r.template is None && r.failure_template is None && r.output is None,
            r.basic_auth is None && r.bearer_token is None,
            r.headers@.len() == 0 && r.query@.len() == 0 && r.form@.len() == 0,
            r.http_version is None && !r.verbose && !r.dry,
    {
        RequestArgsBuilder {
            method: None,
            uri: None,
            body: None,
            prefix: None,
            template: None,
            failure_template: None,
            output: None,
            basic_auth: None,
            bearer_token: None,
            headers: Vec::new(),
            query: Vec::new(),
            form: Vec::new(),
            http_version: None,
            verbose: false,
            dry: false,
        }
    }

    /// Takes up to three positional arguments: `[uri]`, `[method, uri]` or
    /// `[method, uri, body]`. More than three are refused.
    pub fn args(self, args: Vec<String>) -> (r: Result<RequestArgsBuilder, Error>)
        ensures
            r is Ok <==> args@.len() <= 3,
            r matches Ok(b) ==> b == with_positional(self, args@),
            r matches Err(e) ==> e is InvalidArguments,
    {
        let n = args.len();
        let mut b = self;
        if n > 3 {
            return Err(Error::InvalidArguments(
                String::from_str("Additional arguments, you only need to pass 3"),
            ));
        }
        if n == 1 {
            b.uri = Some(args[0].clone());
        } else if n >= 2 {
            b.method = Some(args[0].clone());
            b.uri = Some(args[1].clone());
            if n == 3 {
                b.body = Some(args[2].clone());
            }
        }
        Ok(b)
    }

    /// Sets the headers from `name: value` items; an item without `:` is refused.
    pub fn headers(self, headers: Option<Vec<String>>) -> (r: Result<RequestArgsBuilder, Error>)
        ensures
            headers is None ==> r == Ok::<RequestArgsBuilder, Error>(self),
            headers matches Some(items) ==> (r is Ok <==> all_hold(items@, ':')),
            headers matches Some(items) ==> (r matches Ok(b) ==> b == (RequestArgsBuilder { headers: b.headers, ..self })
                && pairs_of(items@, ':', b.headers@)),
            r matches Err(e) ==> e is InvalidArguments,
    {
        match headers {
            None => Ok(self),
            Some(items) => {
                let pairs = parse_pairs(&items, ':', "http header")?;
                Ok(RequestArgsBuilder { headers: pairs, ..self })
            },
        }
    }

    /// Sets the query parameters from `key=value` items, one per key with the last value given;
    /// an item without `=` is refused.
    pub fn query(self, query: Option<Vec<String>>) -> (r: Result<RequestArgsBuilder, Error>)
        ensures
            query is None ==> r == Ok::<RequestArgsBuilder, Error>(self),
            query matches Some(items) ==> (r is Ok <==> all_hold(items@, '=')),
            query matches Some(items) ==> (r matches Ok(b) ==> b == (RequestArgsBuilder { query: b.query, ..self })
                && exists|pairs: Seq<(String, String)>| #[trigger] pairs_of(items@, '=', pairs)
                    && one_per_key(b.query@, pairs)),
            r matches Err(e) ==> e is InvalidArguments,
    {
        match query {
            None => Ok(self),
            Some(items) => {
                let pairs = parse_pairs(&items, '=', "key=value")?;
                let kept = last_per_key(&pairs);
                assert(pairs_of(items@, '=', pairs@));
                Ok(RequestArgsBuilder { query: kept, ..self })
            },
        }
    }

    /// Sets the form fields from `key=value` items, one per key with the last value given; an
    /// item without `=` is refused.
    pub fn form(self, form: Option<Vec<String>>) -> (r: Result<RequestArgsBuilder, Error>)
        ensures
            form is None ==> r == Ok::<RequestArgsBuilder, Error>(self),
            form matches Some(items) ==> (r is Ok <==> all_hold(items@, '=')),
            form matches Some(items) ==> (r matches Ok(b) ==> b == (RequestArgsBuilder { form: b.form, ..self })
                && exists|pairs: Seq<(String, String)>| #[trigger] pairs_of(items@, '=', pairs)
                    && one_per_key(b.form@, pairs)),
            r matches Err(e) ==> e is InvalidArguments,
    {
        match form {
            None => Ok(self),
            Some(items) => {
                let pairs = parse_pairs(&items, '=', "key=value")?;
                let kept = last_per_key(&pairs);
                assert(pairs_of(items@, '=', pairs@));
                Ok(RequestArgsBuilder { form: kept, ..self })
            },
        }
    }

    /// Prefixes the URL with the value that `looked_up` gives the chosen environment, trailing
    /// `/` removed; a failed lookup is passed on.
    pub fn prefix_from_lookup(self, looked_up: Result<String, Error>) -> (r: Result<RequestArgsBuilder, Error>)
        ensures
            looked_up matches Err(e) ==> r == Err::<RequestArgsBuilder, Error>(e),
            looked_up is Ok ==> r is Ok && r->Ok_0 == (RequestArgsBuilder { prefix: r->Ok_0.prefix, ..self }),
            looked_up is Ok ==> r->Ok_0.prefix is Some
                && r->Ok_0.prefix->Some_0@ == without_trailing(looked_up->Ok_0@, '/'),
    {
        match looked_up {
            Err(e) => Err(e),
            Ok(p) => Ok(RequestArgsBuilder { prefix: Some(trim_trailing(p.as_str(), '/')), ..self }),
        }
    }

    /// Prefixes the URL with the one configured for environment `env` under
    /// `environments.<env>`; without `env` nothing changes, and a failed lookup is an error.
    pub fn environment(self, env: Option<&String>, config: &config::Config) -> (r: Result<RequestArgsBuilder, Error>)
        ensures
            env is None ==> r == Ok::<RequestArgsBuilder, Error>(self),
            env matches Some(name) && !environment_name_ok(name@) ==> r is Err,
            env is Some && r is Ok ==> r->Ok_0 == (RequestArgsBuilder { prefix: r->Ok_0.prefix, ..self }),
            env is Some && r is Ok ==> r->Ok_0.prefix is Some
                && without_trailing(r->Ok_0.prefix->Some_0@, '/') == r->Ok_0.prefix->Some_0@,
            r matches Err(e) ==> e is ConfigError,
    {
        match env {
            None => Ok(self),
            Some(name) => {
                let looked_up = lookup_environment(name.as_str(), config);
                let r = self.prefix_from_lookup(looked_up);
                proof {
                    if looked_up is Ok {
                        lemma_without_trailing_idempotent(looked_up->Ok_0@, '/');
                    }
                }
                r
            },
        }
    }

    /// Sends the output to the file at `path`.
    pub fn output_file(self, path: &str) -> (r: Result<RequestArgsBuilder, Error>)
        ensures
            r is Ok && r->Ok_0 == (RequestArgsBuilder { output: r->Ok_0.output, ..self }),
            r->Ok_0.output is Some && r->Ok_0.output->Some_0@ == path@,
    {
        Ok(RequestArgsBuilder { output: Some(String::from_str(path)), ..self })
    }

    /// Sends the output to the file at `output`, or to standard output.
    pub fn output(self, output: Option<&String>) -> (r: RequestArgsBuilder)
        ensures
            r == (RequestArgsBuilder { output: r.output, ..self }),
            output is None ==> r.output is None,
            output matches Some(o) ==> r.output == Some(*o),
    {
        let output = match output {
            Some(o) => Some(o.clone()),
            None => None,
        };
        RequestArgsBuilder { output, ..self }
    }

    pub fn template(self, template: Option<String>) -> (r: RequestArgsBuilder)
        ensures
            r == (RequestArgsBuilder { template, ..self }),
    {
        RequestArgsBuilder { template, ..self }
    }

    pub fn failure_template(self, failure_template: Option<String>) -> (r: RequestArgsBuilder)
        ensures
            r == (RequestArgsBuilder { failure_template, ..self }),
    {
        RequestArgsBuilder { failure_template, ..self }
    }

    pub fn bearer_token(self, bearer_token: Option<&String>) -> (r: RequestArgsBuilder)
        ensures
            r == (RequestArgsBuilder { bearer_token: r.bearer_token, ..self }),
            bearer_token is None ==> r.bearer_token is None,
            bearer_token matches Some(t) ==> r.bearer_token == Some(*t),
    {
        let bearer_token = match bearer_token {
            Some(t) => Some(t.clone()),
            None => None,
        };
        RequestArgsBuilder { bearer_token, ..self }
    }

    pub fn basic_auth(self, basic_auth: Option<&String>) -> (r: RequestArgsBuilder)
        ensures
            r == (RequestArgsBuilder { basic_auth: r.basic_auth, ..self }),
            basic_auth is None ==> r.basic_auth is None,
            basic_auth matches Some(t) ==> r.basic_auth == Some(*t),
    {
        let basic_auth = match basic_auth {
            Some(t) => Some(t.clone()),
            None => None,
        };
        RequestArgsBuilder { basic_auth, ..self }
    }

    /// Asks for the HTTP version that `version` names; any other text is refused.
    pub fn http_version(self, version: Option<&String>) -> (r: Result<RequestArgsBuilder, Error>)
        ensures
            version is None ==> r == Ok::<RequestArgsBuilder, Error>(self),
            version matches Some(v) ==> (r is Ok <==> version_named(v@) is Some),
            version matches Some(v) ==> (r matches Ok(b) ==> b == (RequestArgsBuilder { http_version: version_named(v@), ..self })),
            r matches Err(e) ==> e is InvalidArguments,
    {
        match version {
            None => Ok(self),
            Some(v) => {
                let parsed = parse_http_version(v.as_str())?;
                Ok(RequestArgsBuilder { http_version: Some(parsed), ..self })
            },
        }
    }

    /// Sets whether the request is shown before it is sent; absent, nothing changes. A dry run
    /// is always shown, so once `dry` is set `verbose` stays on.
    pub fn verbose(self, verbose: Option<&bool>) -> (r: RequestArgsBuilder)
        ensures
            verbose is None ==> r == self,
            verbose matches Some(v) ==> r == (RequestArgsBuilder { verbose: *v || self.dry, ..self }),
    {
        match verbose {
            None => self,
            Some(v) => {
                let shown = *v || self.dry;
                RequestArgsBuilder { verbose: shown, ..self }
            },
        }
    }

    /// A dry run shows the request and never sends it, so it turns `verbose` on as well.
    pub fn dry(self, dry: Option<&bool>) -> (r: RequestArgsBuilder)
        ensures
            dry == Some(&true) ==> r == (RequestArgsBuilder { verbose: true, dry: true, ..self }),
            dry != Some(&true) ==> r == self,
    {
        match dry {
            Some(d) => {
                if *d {
                    RequestArgsBuilder { verbose: true, dry: true, ..self }
                } else {
                    self
                }
            },
            None => self,
        }
    }

    /// The method the request will use: the given one upper-cased, else `GET`.
    pub fn method_text(&self) -> (r: String)
        ensures
            r@ == method_of(self.method),
    {
        match &self.method {
            Some(m) => uppercase(m.as_str()),
            None => String::from_str("GET"),
        }
    }

    /// The URL the request will use: the environment prefix, then the URI, else `/`.
    pub fn url_text(&self) -> (r: String)
        ensures
            r@ == url_of(self.prefix, self.uri),
    {
        let mut url = match &self.prefix {
            Some(p) => p.clone(),
            None => String::new(),
        };
        match &self.uri {
            Some(u) => url.append(u.as_str()),
            None => url.append("/"),
        }
        url
    }

    /// Checks the request and resolves what can be resolved without reading a file, in this
    /// order: the method, the URL, the headers, the credential. The first failure is returned.
    pub fn build(self) -> (r: Result<RequestArgs, Error>)
        ensures
            r is Ok <==> is_method_token(method_of(self.method)) && url_accepts(url_of(self.prefix, self.uri))
                && all_valid(self.headers@) && credential_ok(self.bearer_token, self.basic_auth),
            !is_method_token(method_of(self.method)) ==> r == Err::<RequestArgs, Error>(Error::InvalidMethod),
            is_method_token(method_of(self.method)) && !url_accepts(url_of(self.prefix, self.uri))
                ==> r == Err::<RequestArgs, Error>(Error::InvalidURL),
            r matches Err(e) ==> e is InvalidMethod || e is InvalidURL || e is InvalidArguments,
            r matches Ok(a) ==> built_from(self, a),
    {
        let method = self.method_text();
        if parse_method(method.as_str()).is_err() {
            return Err(Error::InvalidMethod);
        }
        let url = self.url_text();
        if parse_url(url.as_str()).is_err() {
            return Err(Error::InvalidURL);
        }
        let RequestArgsBuilder {
            method: _,
            uri: _,
            body,
            prefix: _,
            template,
            failure_template,
            output,
            basic_auth,
            bearer_token,
            headers,
            query,
            form,
            http_version,
            verbose,
            dry,
        } = self;
        validate_headers(&headers)?;
        let credential = resolve_credential(bearer_token, basic_auth)?;
        let failure_template = match failure_template {
            Some(t) => Some(template_source(Some(t))),
            None => None,
        };
        Ok(RequestArgs {
            method,
            url,
            body: body_source(body),
            template: template_source(template),
            failure_template,
            output,
            credential,
            headers: request_headers(&headers),
            query,
            form,
            http_version,
            verbose,
            dry,
        })
    }
}

/// Positional resolution, from a builder where none of method, URI, body and prefix is set:
/// no argument gives `GET /`; one gives `GET <uri>`; two give `<METHOD> <uri>`; three give
/// `<METHOD> <uri>` with a body. Only a third argument sets a body.
pub proof fn positional_resolution(b: RequestArgsBuilder, args: Seq<String>)
    requires
        args.len() <= 3,
        b.method is None,
        b.uri is None,
        b.body is None,
        b.prefix is None,
    ensures
        method_of(with_positional(b, args).method) == (if args.len() >= 2 {
            upper_of(args[0]@)
        } else {
            "GET"@
        }),
        url_of(with_positional(b, args).prefix, with_positional(b, args).uri) == (if args.len() == 0 {
            "/"@
        } else if args.len() == 1 {
            args[0]@
        } else {
            args[1]@
        }),
        with_positional(b, args).body == (if args.len() == 3 {
            Some(args[2])
        } else {
            None
        }),
{
    let r = with_positional(b, args);
    assert(url_of(r.prefix, r.uri) =~= (match r.uri {
        Some(u) => u@,
        None => "/"@,
    }));
}

/// Positional resolution carried through `build`: from a builder where none of method, URI,
/// body and prefix is set, the request built after taking `args` has the method, URL and body
/// that the number of arguments assigns.
pub proof fn positional_request(b: RequestArgsBuilder, args: Seq<String>, a: RequestArgs)
    requires
        args.len() <= 3,
        b.method is None,
        b.uri is None,
        b.body is None,
        b.prefix is None,
        built_from(with_positional(b, args), a),
    ensures
        a.method@ == (if args.len() >= 2 {
            upper_of(args[0]@)
        } else {
            "GET"@
        }),
        a.url@ == (if args.len() == 0 {
            "/"@
        } else if args.len() == 1 {
            args[0]@
        } else {
            args[1]@
        }),
        body_reads_as(if args.len() == 3 { Some(args[2]) } else { None }, a.body),
{
    positional_resolution(b, args);
}

proof fn lemma_without_trailing_ends(s: Seq<char>, c: char)
    ensures
        without_trailing(s, c).len() == 0 || without_trailing(s, c).last() != c,
        without_trailing(s, c).len() <= s.len(),
        without_trailing(s, c) =~= s.subrange(0, without_trailing(s, c).len() as int),
    decreases s.len(),
{
    if s.len() > 0 && s.last() == c {
        lemma_without_trailing_ends(s.drop_last(), c);
        let t = without_trailing(s.drop_last(), c);
        assert(s.drop_last().subrange(0, t.len() as int) =~= s.subrange(0, t.len() as int));
    }
}

/// Joining an environment prefix with a path: the URL is the prefix without its trailing `/`,
/// then the path as it is. For a path that starts with `/`, exactly one `/` stands at the join.
pub proof fn environment_join(b: RequestArgsBuilder, looked_up: String, b2: RequestArgsBuilder, path: String)
    requires
        b2 == (RequestArgsBuilder { prefix: b2.prefix, uri: Some(path), ..b }),
        b2.prefix is Some,
        b2.prefix->Some_0@ == without_trailing(looked_up@, '/'),
        starts_with_char(path@, '/'),
    ensures
        url_of(b2.prefix, b2.uri) == without_trailing(looked_up@, '/') + path@,
        ({
            let head = without_trailing(looked_up@, '/');
            head.len() == 0 || head.last() != '/'
        }),
        url_of(b2.prefix, b2.uri)[without_trailing(looked_up@, '/').len() as int] == '/',
{
    lemma_without_trailing_ends(looked_up@, '/');
}

} // verus!
