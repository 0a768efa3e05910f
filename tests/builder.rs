use kla::source::DEFAULT_TEMPLATE;
use kla::{AuthType, Credential, Error, HttpVersion, RequestArgsBuilder, TextSource};

fn strings(items: &[&str]) -> Vec<String> {
    items.iter().map(|s| s.to_string()).collect()
}

fn builder_with(args: &[&str]) -> RequestArgsBuilder {
    RequestArgsBuilder::new().args(strings(args)).unwrap()
}

#[test]
fn no_arguments_give_get_root() {
    let b = builder_with(&[]);
    assert_eq!(b.method_text(), "GET");
    assert_eq!(b.url_text(), "/");
    assert_eq!(b.body, None);
}

#[test]
fn one_argument_is_the_uri() {
    let b = builder_with(&["/users"]);
    assert_eq!(b.method_text(), "GET");
    assert_eq!(b.url_text(), "/users");
    assert_eq!(b.body, None);
}

#[test]
fn two_arguments_are_method_and_uri() {
    let b = builder_with(&["post", "/users"]);
    assert_eq!(b.method_text(), "POST");
    assert_eq!(b.url_text(), "/users");
    assert_eq!(b.body, None);
}

#[test]
fn three_arguments_add_a_body() {
    let b = builder_with(&["PUT", "/users/1", "{\"name\":\"x\"}"]);
    assert_eq!(b.method_text(), "PUT");
    assert_eq!(b.url_text(), "/users/1");
    assert_eq!(b.body, Some("{\"name\":\"x\"}".to_string()));
}

#[test]
fn four_arguments_are_refused() {
    let r = RequestArgsBuilder::new().args(strings(&["GET", "/a", "b", "c"]));
    assert!(matches!(r, Err(Error::InvalidArguments(_))));
}

#[test]
fn environment_prefix_joins_without_double_slash() {
    let b = builder_with(&["/users"])
        .prefix_from_lookup(Ok("https://api.example.com/".to_string()))
        .unwrap();
    assert_eq!(b.prefix, Some("https://api.example.com".to_string()));
    assert_eq!(b.url_text(), "https://api.example.com/users");
}

#[test]
fn environment_prefix_loses_every_trailing_slash() {
    let b = builder_with(&["/v1"])
        .prefix_from_lookup(Ok("http://h///".to_string()))
        .unwrap();
    assert_eq!(b.url_text(), "http://h/v1");
}

#[test]
fn failed_lookup_is_passed_on() {
    let r = builder_with(&["/v1"]).prefix_from_lookup(Err(Error::ConfigError("missing".to_string())));
    assert_eq!(r.unwrap_err(), Error::ConfigError("missing".to_string()));
}

#[test]
fn environment_from_configuration() {
    let config = config::Config::builder()
        .set_override("environments.api", "https://api.example.com/")
        .unwrap()
        .build()
        .unwrap();
    let env = "api".to_string();
    let b = builder_with(&["/users"]).environment(Some(&env), &config).unwrap();
    assert_eq!(b.url_text(), "https://api.example.com/users");
    assert_eq!(kla::environment(Some(&env), &config), Some("https://api.example.com/".to_string()));
}

#[test]
fn unknown_environment_is_a_config_error() {
    let config = config::Config::builder().build().unwrap();
    let env = "nowhere".to_string();
    let r = builder_with(&["/users"]).environment(Some(&env), &config);
    assert!(matches!(r, Err(Error::ConfigError(_))));
    assert_eq!(kla::environment(Some(&env), &config), None);
    assert_eq!(kla::environment(None, &config), None);
}

#[test]
fn no_environment_changes_nothing() {
    let config = config::Config::builder().build().unwrap();
    let b = builder_with(&["/users"]).environment(None, &config).unwrap();
    assert_eq!(b.prefix, None);
}

#[test]
fn build_resolves_a_full_request() {
    let a = builder_with(&["delete", "https://example.com/items/3"]).build().unwrap();
    assert_eq!(a.method, "DELETE");
    assert_eq!(a.url, "https://example.com/items/3");
    assert_eq!(a.body, None);
    assert_eq!(a.credential, Credential::Ready(AuthType::Anonymous));
    assert_eq!(a.output, None);
}

#[test]
fn relative_url_is_refused_at_build() {
    let r = builder_with(&["/users"]).build();
    assert!(matches!(r, Err(Error::InvalidURL)));
}

#[test]
fn invalid_method_is_refused_before_the_url() {
    let r = builder_with(&["GE T", "not a url"]).build();
    assert!(matches!(r, Err(Error::InvalidMethod)));
}

#[test]
fn bearer_wins_over_basic() {
    let token = "abc123".to_string();
    let basic = "alice:secret".to_string();
    let a = builder_with(&["https://example.com/"])
        .bearer_token(Some(&token))
        .basic_auth(Some(&basic))
        .build()
        .unwrap();
    assert_eq!(a.credential, Credential::Ready(AuthType::Bearer("abc123".to_string())));
}

#[test]
fn basic_auth_alone_splits_user_and_password() {
    let basic = "alice:secret".to_string();
    let a = builder_with(&["https://example.com/"]).basic_auth(Some(&basic)).build().unwrap();
    assert_eq!(
        a.credential,
        Credential::Ready(AuthType::Basic { username: "alice".to_string(), password: "secret".to_string() })
    );
}

#[test]
fn basic_auth_without_colon_is_refused() {
    let basic = "alice".to_string();
    let r = builder_with(&["https://example.com/"]).basic_auth(Some(&basic)).build();
    assert!(matches!(r, Err(Error::InvalidArguments(_))));
}

#[test]
fn empty_bearer_token_is_refused() {
    let token = String::new();
    let r = builder_with(&["https://example.com/"]).bearer_token(Some(&token)).build();
    assert!(matches!(r, Err(Error::InvalidArguments(_))));
}

#[test]
fn credential_files_are_named_not_read() {
    let token = "@token.txt".to_string();
    let a = builder_with(&["https://example.com/"]).bearer_token(Some(&token)).build().unwrap();
    assert_eq!(a.credential, Credential::BearerFile("token.txt".to_string()));
    let basic = "@creds".to_string();
    let a = builder_with(&["https://example.com/"]).basic_auth(Some(&basic)).build().unwrap();
    assert_eq!(a.credential, Credential::BasicFile("creds".to_string()));
}

#[test]
fn credential_file_content_is_used() {
    let bearer = Credential::BearerFile("t".to_string()).with_file_content("tok\n".to_string());
    assert_eq!(bearer.unwrap(), AuthType::Bearer("tok\n".to_string()));
    let basic = Credential::BasicFile("c".to_string()).with_file_content("bob:pw:x".to_string());
    assert_eq!(
        basic.unwrap(),
        AuthType::Basic { username: "bob".to_string(), password: "pw:x".to_string() }
    );
    let bad = Credential::BasicFile("c".to_string()).with_file_content("bob".to_string());
    assert!(matches!(bad, Err(Error::InvalidArguments(_))));
}

#[test]
fn body_sources() {
    let a = builder_with(&["POST", "https://example.com/", "@body.json"]).build().unwrap();
    assert_eq!(a.body, Some(TextSource::File("body.json".to_string())));
    let a = builder_with(&["POST", "https://example.com/", "-"]).build().unwrap();
    assert_eq!(a.body, Some(TextSource::Stdin));
    let a = builder_with(&["POST", "https://example.com/", "-1"]).build().unwrap();
    assert_eq!(a.body, Some(TextSource::Inline("-1".to_string())));
    let a = builder_with(&["POST", "https://example.com/", ""]).build().unwrap();
    assert_eq!(a.body, None);
}

#[test]
fn template_defaults_and_files() {
    let a = builder_with(&["https://example.com/"]).build().unwrap();
    assert_eq!(a.template, TextSource::Inline(DEFAULT_TEMPLATE.to_string()));
    assert_eq!(a.failure_template, None);
    let a = builder_with(&["https://example.com/"])
        .template(Some("@tmpl.txt".to_string()))
        .failure_template(Some("oops {{ body }}".to_string()))
        .build()
        .unwrap();
    assert_eq!(a.template, TextSource::File("tmpl.txt".to_string()));
    assert_eq!(a.failure_template, Some(TextSource::Inline("oops {{ body }}".to_string())));
}

#[test]
fn dry_run_implies_verbose_and_no_send() {
    let a = builder_with(&["https://example.com/"]).dry(Some(&true)).build().unwrap();
    assert!(a.verbose);
    assert!(a.dry);
    assert!(a.shows_request());
    assert!(!a.sends_request());
}

#[test]
fn verbose_and_plain_runs() {
    let a = builder_with(&["https://example.com/"]).verbose(Some(&true)).dry(Some(&false)).build().unwrap();
    assert!(a.shows_request());
    assert!(a.sends_request());
    let a = builder_with(&["https://example.com/"]).verbose(None).dry(None).build().unwrap();
    assert!(!a.shows_request());
    assert!(a.sends_request());
}

#[test]
fn output_targets() {
    let out = "result.txt".to_string();
    let b = RequestArgsBuilder::new().output(Some(&out));
    assert_eq!(b.output, Some("result.txt".to_string()));
    let b = RequestArgsBuilder::new().output_file("other.txt").unwrap();
    assert_eq!(b.output, Some("other.txt".to_string()));
    assert_eq!(RequestArgsBuilder::new().output(None).output, None);
}

#[test]
fn http_versions() {
    let v = "2.0".to_string();
    let b = RequestArgsBuilder::new().http_version(Some(&v)).unwrap();
    assert_eq!(b.http_version, Some(HttpVersion::Http2));
    for (text, version) in [
        ("0.9", HttpVersion::Http09),
        ("1.0", HttpVersion::Http10),
        ("1.1", HttpVersion::Http11),
        ("3.0", HttpVersion::Http3),
    ] {
        assert_eq!(kla::request::parse_http_version(text), Ok(version));
    }
    let bad = "4.0".to_string();
    let r = RequestArgsBuilder::new().http_version(Some(&bad));
    assert!(matches!(r, Err(Error::InvalidArguments(_))));
}

#[test]
fn query_and_form_pairs_are_trimmed() {
    let b = RequestArgsBuilder::new()
        .query(Some(strings(&["name = Jed", "a=b=c"])))
        .unwrap()
        .form(Some(strings(&["k=v"])))
        .unwrap();
    assert_eq!(
        b.query,
        vec![("name".to_string(), "Jed".to_string()), ("a".to_string(), "b=c".to_string())]
    );
    assert_eq!(b.form, vec![("k".to_string(), "v".to_string())]);
}

#[test]
fn pair_without_separator_is_refused() {
    let r = RequestArgsBuilder::new().query(Some(strings(&["novalue"])));
    assert_eq!(r.unwrap_err(), Error::InvalidArguments("novalue is not a valid key=value".to_string()));
    let r = RequestArgsBuilder::new().form(Some(strings(&["x"])));
    assert!(matches!(r, Err(Error::InvalidArguments(_))));
    let r = RequestArgsBuilder::new().headers(Some(strings(&["NoColon"])));
    assert_eq!(r.unwrap_err(), Error::InvalidArguments("NoColon is not a valid http header".to_string()));
}

#[test]
fn summary_shows_method_url_headers_and_body() {
    let a = builder_with(&["post", "https://example.com/a", "{}"])
        .headers(Some(strings(&["X-Id: 7"])))
        .unwrap()
        .dry(Some(&true))
        .build()
        .unwrap();
    assert_eq!(
        a.summary(),
        "POST https://example.com/a\nContent-Type: application/json\nX-Id: 7\nwith body\n"
    );
    let a = builder_with(&["https://example.com/"]).build().unwrap();
    assert_eq!(a.summary(), "GET https://example.com/\nContent-Type: application/json\n");
}

#[test]
fn verbose_off_after_dry_keeps_verbose() {
    let b = RequestArgsBuilder::new().dry(Some(&true)).verbose(Some(&false));
    assert!(b.dry);
    assert!(b.verbose);
}

#[test]
fn repeated_query_and_form_keys_keep_the_last_value() {
    let b = RequestArgsBuilder::new()
        .query(Some(strings(&["a=1", "b=2", "a=3"])))
        .unwrap()
        .form(Some(strings(&["x=1", " x = 2 "])))
        .unwrap();
    assert_eq!(b.query, vec![("a".to_string(), "3".to_string()), ("b".to_string(), "2".to_string())]);
    assert_eq!(b.form, vec![("x".to_string(), "2".to_string())]);
}

#[test]
fn environment_name_with_subscript_is_refused() {
    let config = config::Config::builder()
        .set_override("environments.x", vec!["a", "b"])
        .unwrap()
        .build()
        .unwrap();
    let env = "x[-5]".to_string();
    let r = builder_with(&["/users"]).environment(Some(&env), &config);
    assert!(matches!(r, Err(Error::ConfigError(_))));
    assert_eq!(kla::environment(Some(&env), &config), None);
}

#[test]
fn lookup_result_to_prefix() {
    assert_eq!(kla::konfig::prefix_or_none(Ok("https://h/".to_string())), Some("https://h/".to_string()));
    assert_eq!(kla::konfig::prefix_or_none(Err(Error::ConfigError("no".to_string()))), None);
}
