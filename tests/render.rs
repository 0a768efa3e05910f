use kla::render::{read_response_body, response_context, uses_failure_template, ResponseBody, TEMPLATE_NAME};
use kla::source::DEFAULT_TEMPLATE;
use kla::{compile_template, Error, Templates};

fn templates(success: &str, failure: Option<&str>) -> Templates {
    Templates {
        success: compile_template(success).unwrap(),
        failure: failure.map(|t| compile_template(t).unwrap()),
    }
}

fn render(t: &Templates, status: u16, body: &str) -> String {
    match read_response_body(body.to_string()) {
        ResponseBody::Verbatim(text) => text,
        ResponseBody::Structured(value) => {
            let headers = vec![("content-type".to_string(), "application/json".to_string())];
            let context = response_context(&value, status, "HTTP/1.1", &headers, body);
            t.template_for(status).render(TEMPLATE_NAME, &context).unwrap()
        }
    }
}

#[test]
fn plain_text_passes_through_verbatim() {
    match read_response_body("plain text".to_string()) {
        ResponseBody::Verbatim(text) => assert_eq!(text, "plain text"),
        ResponseBody::Structured(_) => panic!("plain text is not JSON"),
    }
}

#[test]
fn json_body_is_structured() {
    assert!(matches!(read_response_body("{\"a\": [1, 2]}".to_string()), ResponseBody::Structured(_)));
}

#[test]
fn default_template_pretty_prints_the_body() {
    let t = templates(DEFAULT_TEMPLATE, None);
    assert_eq!(render(&t, 200, "{\"a\":1}"), "{\n  \"a\": 1\n}");
}

#[test]
fn json_body_is_rendered_with_the_selected_template() {
    let t = templates("hello {{ body.name }}", Some("failed {{ body.name }}"));
    assert_eq!(render(&t, 201, "{\"name\":\"kla\"}"), "hello kla");
    assert_eq!(render(&t, 404, "{\"name\":\"kla\"}"), "failed kla");
}

#[test]
fn failure_without_failure_template_uses_success_template() {
    let t = templates("ok {{ body }}", None);
    assert_eq!(render(&t, 500, "7"), "ok 7");
}

#[test]
fn response_metadata_is_in_the_context() {
    let t = templates("{{ status }} {{ resp_http_version }} {{ resp_headers_server }} {{ resp_body }}", None);
    let value = match read_response_body("{\"a\":1}".to_string()) {
        ResponseBody::Structured(value) => value,
        ResponseBody::Verbatim(_) => panic!("the body is JSON"),
    };
    let headers = vec![("server".to_string(), "kla".to_string())];
    let context = response_context(&value, 404, "HTTP/2.0", &headers, "{\"a\":1}");
    let out = t.template_for(404).render(TEMPLATE_NAME, &context).unwrap();
    assert_eq!(out, "404 HTTP/2.0 kla {\"a\":1}");
}

#[test]
fn failure_template_selection() {
    assert!(!uses_failure_template(200, true));
    assert!(!uses_failure_template(299, true));
    assert!(uses_failure_template(300, true));
    assert!(uses_failure_template(199, true));
    assert!(!uses_failure_template(404, false));
}

#[test]
fn malformed_template_is_a_template_error() {
    assert!(matches!(compile_template("{{ body"), Err(Error::TemplateError(_))));
}
