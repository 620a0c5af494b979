use signed_client::client::BodyMode;
use signed_client::client::Client;
use signed_client::client::Config;
use signed_client::client::Method;
use signed_client::client::OauthToken;
use signed_client::client::SessionToken;
use signed_client::client::TransportError;
use signed_client::client::Verb;
use signed_client::client::get_url;
use signed_client::client::header_encoding_error;

fn demo_config() -> Config {
    Config { base_url: String::from("demo-api.example.com") }
}

fn demo_client() -> Client {
    Client::new(
        String::from("A1"),
        String::from("K1"),
        String::from("user@example.com"),
        String::from("hunter2"),
        demo_config(),
    )
}

fn demo_token(access: &str) -> SessionToken {
    SessionToken { oauth_token: OauthToken { access_token: String::from(access) } }
}

#[test]
fn url_composition_is_exact() {
    let cfg = demo_config();
    let url = get_url(&cfg, &String::from("/markets"));
    assert_eq!(url.as_str(), "https://demo-api.example.com/markets");
}

#[test]
fn url_composition_keeps_host_with_port() {
    let cfg = Config { base_url: String::from("localhost:8080") };
    let url = get_url(&cfg, &String::from("/session"));
    assert_eq!(url.as_str(), "https://localhost:8080/session");
}

#[test]
fn url_composition_does_not_normalize() {
    let cfg = demo_config();
    let url = get_url(&cfg, &String::from("/a//b?q=1"));
    assert_eq!(url.as_str(), "https://demo-api.example.com/a//b?q=1");
}

#[test]
fn new_keeps_credentials() {
    let c = demo_client();
    assert_eq!(c.account_id.as_str(), "A1");
    assert_eq!(c.api_key.as_str(), "K1");
    assert_eq!(c.username.as_str(), "user@example.com");
    assert_eq!(c.password.as_str(), "hunter2");
    assert_eq!(c.config.base_url.as_str(), "demo-api.example.com");
}

#[test]
fn login_request_shape() {
    let c = demo_client();
    let lr = c.login_request().unwrap();
    assert_eq!(lr.url.as_str(), "https://demo-api.example.com/session");
    assert_eq!(lr.headers.len(), 3);
    assert_eq!(lr.headers[0].name.as_str(), "X-IG-API-KEY");
    assert_eq!(lr.headers[0].value.as_str(), "K1");
    assert_eq!(lr.headers[1].name.as_str(), "IG-ACCOUNT-ID");
    assert_eq!(lr.headers[1].value.as_str(), "A1");
    assert_eq!(lr.headers[2].name.as_str(), "VERSION");
    assert_eq!(lr.headers[2].value.as_str(), "3");
    assert_eq!(lr.body.identifier.as_str(), "user@example.com");
    assert_eq!(lr.body.password.as_str(), "hunter2");
}

#[test]
fn login_request_rejects_bad_api_key() {
    let c = Client::new(
        String::from("A1"),
        String::from("K\n1"),
        String::from("u"),
        String::from("p"),
        demo_config(),
    );
    let e = c.login_request().unwrap_err();
    assert_eq!(e.detail.as_str(), "invalid header value");
}

#[test]
fn login_request_rejects_bad_account_id() {
    let c = Client::new(
        String::from("A\u{7f}1"),
        String::from("K1"),
        String::from("u"),
        String::from("p"),
        demo_config(),
    );
    let e = c.login_request().unwrap_err();
    assert_eq!(e.detail.as_str(), "invalid header value");
}

#[test]
fn signed_headers_are_exactly_four() {
    let c = demo_client();
    let hs = c.signed_headers(&demo_token("T1"), 2).unwrap();
    assert_eq!(hs.len(), 4);
    assert_eq!(hs[0].name.as_str(), "IG-ACCOUNT-ID");
    assert_eq!(hs[0].value.as_str(), "A1");
    assert_eq!(hs[1].name.as_str(), "X-IG-API-KEY");
    assert_eq!(hs[1].value.as_str(), "K1");
    assert_eq!(hs[2].name.as_str(), "Authorization");
    assert_eq!(hs[2].value.as_str(), "Bearer T1");
    assert_eq!(hs[3].name.as_str(), "VERSION");
    assert_eq!(hs[3].value.as_str(), "2");
}

#[test]
fn signed_headers_stringify_version_zero() {
    let c = demo_client();
    let hs = c.signed_headers(&demo_token("T1"), 0).unwrap();
    assert_eq!(hs[3].value.as_str(), "0");
}

#[test]
fn signed_headers_stringify_version_max() {
    let c = demo_client();
    let hs = c.signed_headers(&demo_token("T1"), 255).unwrap();
    assert_eq!(hs[3].value.as_str(), "255");
}

#[test]
fn signed_headers_reject_bad_token() {
    let c = demo_client();
    let e = c.signed_headers(&demo_token("T\r\n1"), 1).unwrap_err();
    assert_eq!(e.detail.as_str(), "invalid header value");
}

#[test]
fn signed_headers_accept_tab_in_token() {
    // horizontal tab is the one control character a header value may carry
    let c = demo_client();
    let hs = c.signed_headers(&demo_token("T\t1"), 1).unwrap();
    assert_eq!(hs[2].value.as_str(), "Bearer T\t1");
}

#[test]
fn delete_is_tunneled_as_post() {
    let c = demo_client();
    let req = c
        .signed_request(Verb::Delete, &String::from("/positions/otc"), 1, &demo_token("T1"), true)
        .unwrap();
    assert_eq!(req.method, Method::Post);
    assert_eq!(req.url.as_str(), "https://demo-api.example.com/positions/otc");
    assert_eq!(req.headers.len(), 5);
    assert_eq!(req.headers[4].name.as_str(), "_method");
    assert_eq!(req.headers[4].value.as_str(), "DELETE");
    assert_eq!(req.body, BodyMode::Json);
}

#[test]
fn get_attaches_body_as_query() {
    let c = demo_client();
    let req = c
        .signed_request(Verb::Get, &String::from("/markets"), 1, &demo_token("T1"), true)
        .unwrap();
    assert_eq!(req.method, Method::Get);
    assert_eq!(req.headers.len(), 4);
    assert_eq!(req.body, BodyMode::Query);
}

#[test]
fn post_and_put_attach_body_as_json() {
    let c = demo_client();
    let post = c
        .signed_request(Verb::Post, &String::from("/positions"), 2, &demo_token("T1"), true)
        .unwrap();
    assert_eq!(post.method, Method::Post);
    assert_eq!(post.body, BodyMode::Json);
    let put = c
        .signed_request(Verb::Put, &String::from("/positions"), 2, &demo_token("T1"), true)
        .unwrap();
    assert_eq!(put.method, Method::Put);
    assert_eq!(put.body, BodyMode::Json);
}

#[test]
fn no_body_means_no_body_on_any_verb() {
    let c = demo_client();
    for verb in [Verb::Get, Verb::Post, Verb::Put, Verb::Delete] {
        let req = c
            .signed_request(verb, &String::from("/markets"), 1, &demo_token("T1"), false)
            .unwrap();
        assert_eq!(req.body, BodyMode::Empty);
    }
}

#[test]
fn signed_get_scenario_carries_bearer_token() {
    // client A1/K1; the session endpoint answered with access token T1;
    // the signed GET to /markets must carry Authorization: Bearer T1.
    let c = demo_client();
    let outcome: Result<SessionToken, TransportError> = Ok(demo_token("T1"));
    let req = c.after_login(Verb::Get, &String::from("/markets"), 1, true, outcome).unwrap();
    assert_eq!(req.url.as_str(), "https://demo-api.example.com/markets");
    assert_eq!(req.method, Method::Get);
    assert_eq!(req.headers[2].name.as_str(), "Authorization");
    assert_eq!(req.headers[2].value.as_str(), "Bearer T1");
    assert_eq!(req.body, BodyMode::Query);
}

#[test]
fn failed_acquisition_fails_operation_unchanged() {
    let c = demo_client();
    for verb in [Verb::Get, Verb::Post, Verb::Put, Verb::Delete] {
        let outcome: Result<SessionToken, TransportError> =
            Err(TransportError { detail: String::from("connection refused") });
        let e = c.after_login(verb, &String::from("/markets"), 1, true, outcome).unwrap_err();
        assert_eq!(e.detail.as_str(), "connection refused");
    }
}

#[test]
fn header_encoding_error_detail() {
    let e = header_encoding_error();
    assert_eq!(e.detail.as_str(), "invalid header value");
}

#[test]
fn version_rendering_multi_digit() {
    let c = demo_client();
    let hs = c.signed_headers(&demo_token("T1"), 10).unwrap();
    assert_eq!(hs[3].value.as_str(), "10");
    let hs = c.signed_headers(&demo_token("T1"), 100).unwrap();
    assert_eq!(hs[3].value.as_str(), "100");
    let hs = c.signed_headers(&demo_token("T1"), 207).unwrap();
    assert_eq!(hs[3].value.as_str(), "207");
}

#[test]
fn url_composition_with_empty_path() {
    let cfg = demo_config();
    let url = get_url(&cfg, &String::from(""));
    assert_eq!(url.as_str(), "https://demo-api.example.com");
}

#[test]
fn cloned_client_plans_the_same_calls() {
    let c = demo_client();
    let d = c.clone();
    let a = c.login_request().unwrap();
    let b = d.login_request().unwrap();
    assert_eq!(a.url.as_str(), b.url.as_str());
    assert_eq!(a.headers.len(), b.headers.len());
    assert_eq!(a.body.identifier.as_str(), b.body.identifier.as_str());
}
