//! End-to-end dispatch through a mocked HTTP executor.

use urlshortener::client::{dispatch_outcome, generate_with, try_generate_with};
use urlshortener::providers::{default_providers, Provider, ProviderError};
use urlshortener::request::Request;

#[test]
fn isgd_happy_path() {
    let executor = |_req: Request| Some(String::from("https://is.gd/abc"));
    let r = generate_with("https://doc.rust-lang.org/std/", &Provider::IsGd, executor);
    assert_eq!(r, Ok(String::from("https://is.gd/abc")));
}

#[test]
fn xml_body_is_decoded_through_generate() {
    let executor =
        |_req: Request| Some(String::from("<Response><ShortUrl>https://psbe.co/Q</ShortUrl></Response>"));
    let r = generate_with("https://doc.rust-lang.org/std/", &Provider::PsbeCo, executor);
    assert_eq!(r, Ok(String::from("https://psbe.co/Q")));
}

#[test]
fn tinyph_json_body_gets_its_prefix() {
    let executor = |_req: Request| Some(String::from("{\"hash\":\"xy9\"}"));
    let r = generate_with("https://doc.rust-lang.org/std/", &Provider::TinyPh, executor);
    assert_eq!(r, Ok(String::from("http://tiny.ph/xy9")));
}

#[test]
fn transport_failure_is_a_connection_error() {
    let executor = |_req: Request| None;
    let r = generate_with("https://x", &Provider::IsGd, executor);
    assert_eq!(r, Err(ProviderError::Connection));
}

#[test]
fn unparseable_body_is_a_deserialize_error() {
    let executor = |_req: Request| Some(String::from("plain nonsense"));
    let r = generate_with("https://x", &Provider::TinyPh, executor);
    assert_eq!(r, Err(ProviderError::Deserialize));
}

#[test]
fn generate_sends_the_provider_request() {
    let executor = |req: Request| {
        assert_eq!(
            req.url,
            "https://is.gd/create.php?format=simple&url=https%3A%2F%2Fx"
        );
        Some(String::from("https://is.gd/abc"))
    };
    let r = generate_with("https://x", &Provider::IsGd, executor);
    assert_eq!(r, Ok(String::from("https://is.gd/abc")));
}

#[test]
fn try_generate_falls_back_to_the_next_provider() {
    let executor = |req: Request| {
        if req.url.contains("is.gd") {
            None
        } else {
            Some(String::from("https://v.gd/Z"))
        }
    };
    let r = try_generate_with("https://doc.rust-lang.org/std/", None, executor);
    assert_eq!(r, Ok(String::from("https://v.gd/Z")));
}

#[test]
fn try_generate_skips_undecodable_answers_too() {
    let providers = [Provider::TinyPh, Provider::VGd];
    let executor = |req: Request| {
        if req.url.contains("tiny.ph") {
            Some(String::from("no json at all"))
        } else {
            Some(String::from("https://v.gd/Z"))
        }
    };
    let r = try_generate_with("https://x", Some(&providers), executor);
    assert_eq!(r, Ok(String::from("https://v.gd/Z")));
}

#[test]
fn try_generate_reports_connection_when_all_fail() {
    let executor = |_req: Request| None;
    let providers = [Provider::IsGd, Provider::VGd, Provider::TinyPh];
    let r = try_generate_with("https://x", Some(&providers), executor);
    assert_eq!(r, Err(ProviderError::Connection));
}

#[test]
fn try_generate_with_empty_list_makes_no_call() {
    let executor = |_req: Request| -> Option<String> {
        panic!("the executor must not run for an empty provider list");
    };
    let r = try_generate_with("https://x", Some(&[]), executor);
    assert_eq!(r, Err(ProviderError::Connection));
}

#[test]
fn try_generate_walks_the_default_list_in_order() {
    let expected: Vec<String> = default_providers()
        .iter()
        .map(|p| String::from(p.to_name()))
        .collect();
    let seen = std::cell::RefCell::new(Vec::new());
    let executor = |req: Request| {
        seen.borrow_mut().push(req.url.clone());
        None
    };
    let r = try_generate_with("https://x", None, &executor);
    assert_eq!(r, Err(ProviderError::Connection));
    let seen = seen.into_inner();
    assert_eq!(seen.len(), expected.len());
    for (url, name) in seen.iter().zip(expected.iter()) {
        assert!(
            url.contains(name.as_str()),
            "url {} does not name provider {}",
            url,
            name
        );
    }
}

#[test]
fn dispatch_outcome_mirrors_the_transport() {
    assert_eq!(dispatch_outcome(None, &Provider::IsGd), Err(ProviderError::Connection));
    assert_eq!(
        dispatch_outcome(Some(String::from("https://is.gd/a")), &Provider::IsGd),
        Ok(String::from("https://is.gd/a"))
    );
}
