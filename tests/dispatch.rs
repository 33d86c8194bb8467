use jellyroller::dispatch::{accept, auth_header, classify, CliError, ContentType, Method, Outcome, Request};
use jellyroller::endpoint::{has_unresolved, resolve, resolve_all};
use jellyroller::text::text_eq;

fn params(ps: &[(&str, &str)]) -> Vec<(String, String)> {
    ps.iter().map(|(a, b)| (a.to_string(), b.to_string())).collect()
}

#[test]
fn resolve_substitutes_known_placeholders() {
    let url = resolve("http://h", "/Users/{userId}/Policy", &params(&[("userId", "42")]));
    assert_eq!(url, "http://h/Users/42/Policy");
}

#[test]
fn resolve_keeps_unmatched_placeholder() {
    let url = resolve("http://h", "/Items/{itemId}/Images/{imageType}", &params(&[("itemId", "7")]));
    assert_eq!(url, "http://h/Items/7/Images/{imageType}");
}

#[test]
fn resolve_ignores_unused_params_and_is_deterministic() {
    let ps = params(&[("x", "1"), ("userId", "u")]);
    let a = resolve("b", "/{userId}", &ps);
    let b = resolve("b", "/{userId}", &ps);
    assert_eq!(a, "b/u");
    assert_eq!(a, b);
}

#[test]
fn resolve_edge_cases() {
    assert_eq!(resolve("", "", &params(&[])), "");
    assert_eq!(resolve("b", "{a", &params(&[("a", "1")])), "b{a");
    assert_eq!(resolve("b", "{{a}", &params(&[("a", "1")])), "b{1");
    assert_eq!(resolve("b", "{}", &params(&[("", "e")])), "be");
    assert_eq!(resolve("b", "{a}{a}", &params(&[("a", "1"), ("a", "2")])), "b11");
    assert_eq!(resolve("b", "{a}", &params(&[("a", "{a}")])), "b{a}");
}

#[test]
fn classify_statuses() {
    assert!(matches!(classify(200, "x".to_string()), Outcome::Success(ref b) if b == "x"));
    assert!(matches!(classify(204, String::new()), Outcome::Success(_)));
    assert!(matches!(classify(299, String::new()), Outcome::Success(_)));
    assert!(matches!(classify(401, "x".to_string()), Outcome::Unauthorized));
    assert!(matches!(classify(500, "x".to_string()), Outcome::Other(500)));
    assert!(matches!(classify(300, String::new()), Outcome::Other(300)));
    assert!(matches!(classify(199, String::new()), Outcome::Other(199)));
}

#[test]
fn accept_maps_errors() {
    assert_eq!(accept(200, Some(5)), Ok(5));
    assert_eq!(accept::<i32>(200, None), Err(CliError::MalformedResponse));
    assert_eq!(accept(401, Some(5)), Err(CliError::Authorization));
    assert_eq!(accept(500, Some(5)), Err(CliError::Protocol(500)));
    assert_eq!(accept(404, Some(5)), Err(CliError::Protocol(404)));
}

#[test]
fn auth_header_carries_key() {
    assert_eq!(auth_header("K1"), "MediaBrowser Token=\"K1\"");
}

#[test]
fn requests_carry_method_and_key() {
    let g = Request::get("u".to_string(), params(&[("q", "1")]), "K");
    assert_eq!(g.method, Method::Get);
    assert_eq!(g.query, params(&[("q", "1")]));
    assert_eq!(g.authorization, "MediaBrowser Token=\"K\"");
    let d = Request::delete("u".to_string(), params(&[("id", "9")]), "K");
    assert_eq!(d.method, Method::Delete);
    assert_eq!(d.content_type, ContentType::NoBody);
    let p = Request::post("u".to_string(), vec![], "{}".to_string(), ContentType::Json, "K");
    assert_eq!(p.method, Method::Post);
    assert_eq!(p.body, "{}");
}

#[test]
fn text_eq_compares_characters() {
    assert!(text_eq("abc", "abc"));
    assert!(!text_eq("abc", "abd"));
    assert!(!text_eq("ab", "abc"));
    assert!(text_eq("", ""));
}

#[test]
fn missing_parameters_are_detected() {
    let ps = params(&[("itemId", "7")]);
    assert!(has_unresolved("/Items/{itemId}/Images/{imageType}", &ps));
    assert!(!has_unresolved("/Items/{itemId}", &ps));
    assert!(!has_unresolved("/Items/{item", &ps));
    assert_eq!(resolve_all("h", "/Items/{itemId}/Images/{imageType}", &ps), None);
    assert_eq!(resolve_all("h", "/Items/{itemId}", &ps), Some("h/Items/7".to_string()));
}
