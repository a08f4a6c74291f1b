use learn_rocket::pipeline::{rocket, route_api_v1, RequestContext, VisitorCounter, XTraceId};
use learn_rocket::response::default_response;

#[test]
fn counter_counts_each_request() {
    let c = VisitorCounter::new();
    assert_eq!(c.visits(), 0);
    for i in 1..=25u64 {
        assert_eq!(c.increment_counter(), i);
    }
    assert_eq!(c.visits(), 25);
}

#[test]
fn trace_id_reaches_response() {
    let mut ctx = RequestContext { trace_id: Some(String::from("client-sent")) };
    XTraceId::on_request(&mut ctx);
    let token = ctx.trace_id.clone().unwrap();
    assert_ne!(token, "client-sent");
    assert_eq!(token.len(), 36);
    let mut reply = default_response();
    reply.trace_id = Some(String::from("handler-set"));
    XTraceId::on_response(&ctx, &mut reply);
    assert_eq!(reply.trace_id, Some(token));
}

#[test]
fn injected_token_is_used() {
    let mut ctx = RequestContext { trace_id: None };
    XTraceId::inject(&mut ctx, String::from("abc"));
    let mut reply = default_response();
    XTraceId::on_response(&ctx, &mut reply);
    assert_eq!(reply.trace_id.as_deref(), Some("abc"));
}

#[test]
fn propagation_changes_only_the_trace_id() {
    let ctx = RequestContext { trace_id: Some(String::from("t-1")) };
    let mut reply = default_response();
    XTraceId::on_response(&ctx, &mut reply);
    let mut expected = default_response();
    expected.trace_id = Some(String::from("t-1"));
    assert_eq!(reply, expected);
}

#[test]
fn fresh_token_is_a_version_4_identifier() {
    let token = XTraceId::fresh_token();
    let chars: Vec<char> = token.chars().collect();
    assert_eq!(chars.len(), 36);
    assert_eq!(chars[14], '4');
    assert!(matches!(chars[19], '8' | '9' | 'a' | 'b'));
    for i in [8, 13, 18, 23] {
        assert_eq!(chars[i], '-');
    }
}

#[test]
fn fresh_tokens_differ() {
    assert_ne!(XTraceId::fresh_token(), XTraceId::fresh_token());
}

#[test]
fn route_tables() {
    let api = route_api_v1();
    assert_eq!(api.len(), 2);
    assert_eq!((api[0].base.as_str(), api[0].path.as_str()), ("/user", "/<uuid>"));
    assert_eq!(
        (api[1].base.as_str(), api[1].path.as_str()),
        ("/users", "/<name_grade>?<filters..>")
    );
    let all = rocket();
    assert_eq!(all.len(), 3);
    assert_eq!((all[0].base.as_str(), all[0].path.as_str()), ("/", "/health"));
    assert_eq!(all[1..].to_vec(), api);
}
