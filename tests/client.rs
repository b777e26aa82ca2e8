use std::collections::HashMap;

use house_finder::client::{Client, Fetch, FetchAction, FetchEvent};
use house_finder::limiter::Provider;

/// Runs one fetch against an in-memory cache and a fake network, counting
/// limiter waits and requests.
fn run(client: &Client, url: &str, payload: Option<&str>, store: &mut HashMap<String, String>, response: &str, acquires: &mut usize, sends: &mut usize) -> String {
    let (mut fetch, mut action): (Fetch, FetchAction) = client.fetch(url, payload);
    loop {
        let event = match action {
            FetchAction::ReadCache(key) => FetchEvent::Cached(store.get(&key).cloned()),
            FetchAction::Acquire(_) => {
                *acquires += 1;
                FetchEvent::Acquired
            }
            FetchAction::Send => {
                *sends += 1;
                FetchEvent::Received(response.to_string())
            }
            FetchAction::WriteCache(key, body) => {
                store.insert(key, body);
                FetchEvent::Stored
            }
            FetchAction::Done(body) => return body,
        };
        let (f, a) = fetch.next(event);
        fetch = f;
        action = a;
    }
}

#[test]
fn cache_key_is_url_then_payload() {
    assert_eq!(Client::cache_key("https://a/b", None), "https://a/b");
    assert_eq!(Client::cache_key("https://a/b", Some("{\"x\":1}")), "https://a/b{\"x\":1}");
}

#[test]
fn client_cache_location() {
    let c = Client::new("/base", Some("elisa/address/search"), Some(Provider::Elisa));
    assert_eq!(c.cache.as_ref().unwrap().dir, "/base/cache/client/elisa/address/search");
    assert_eq!(c.cache.as_ref().unwrap().ext, "json");
    assert!(Client::new("/base", None, None).cache.is_none());
}

#[test]
fn second_fetch_is_served_from_cache() {
    let client = Client::new("/base", Some("x"), Some(Provider::OpenRouteService));
    let mut store = HashMap::new();
    let (mut acquires, mut sends) = (0, 0);
    let first = run(&client, "https://r", Some("{}"), &mut store, "body-1", &mut acquires, &mut sends);
    assert_eq!(first, "body-1");
    assert_eq!((acquires, sends), (1, 1));
    let second = run(&client, "https://r", Some("{}"), &mut store, "body-2", &mut acquires, &mut sends);
    assert_eq!(second, "body-1");
    assert_eq!((acquires, sends), (1, 1));
}

#[test]
fn without_cache_every_fetch_goes_to_the_network() {
    let client = Client::new("/base", None, None);
    let mut store = HashMap::new();
    let (mut acquires, mut sends) = (0, 0);
    assert_eq!(run(&client, "https://r", None, &mut store, "a", &mut acquires, &mut sends), "a");
    assert_eq!(run(&client, "https://r", None, &mut store, "b", &mut acquires, &mut sends), "b");
    assert_eq!((acquires, sends), (0, 2));
    assert!(store.is_empty());
}

#[test]
fn fetch_actions_in_order_on_a_miss() {
    let client = Client::new("/base", Some("x"), Some(Provider::Elisa));
    let (fetch, action) = client.fetch("u", None);
    assert!(matches!(&action, FetchAction::ReadCache(k) if k == "u"));
    let (fetch, action) = fetch.next(FetchEvent::Cached(None));
    assert!(matches!(action, FetchAction::Acquire(Provider::Elisa)));
    let (fetch, action) = fetch.next(FetchEvent::Acquired);
    assert!(matches!(action, FetchAction::Send));
    let (fetch, action) = fetch.next(FetchEvent::Received("t".to_string()));
    assert!(matches!(&action, FetchAction::WriteCache(k, b) if k == "u" && b == "t"));
    let (_, action) = fetch.next(FetchEvent::Stored);
    assert!(matches!(&action, FetchAction::Done(b) if b == "t"));
}
