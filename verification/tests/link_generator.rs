use std::collections::HashSet;

use rurl_shortener::config::Config;
use rurl_shortener::link_generator::{LinkGenerator, RANDOM_KEY_LEN};
use rurl_shortener::validation::is_valid_short_link;

#[test]
fn test_random_link_generator() {
    let link_generator = LinkGenerator::Random;
    let keys = ["key1", "key2", "key3"];
    let mut short_links = HashSet::<String>::new();
    for key in keys.iter() {
        short_links.insert(
            link_generator
                .generate(key, &vec![])
                .expect("Cannot generate key"),
        );
    }
    assert!(short_links.len() == keys.len());
}

#[test]
fn test_random_key_is_well_formed() {
    let key = LinkGenerator::Random
        .generate("https://example.com", &vec![])
        .expect("Cannot generate key");
    assert_eq!(key.len(), RANDOM_KEY_LEN);
    assert!(is_valid_short_link(&key));
    assert!(key.chars().all(|c| c.is_ascii_alphanumeric()));
}

#[test]
fn test_from_config_with_token() {
    let config = Config {
        openrouter_token: Some("token".to_string()),
        ..Config::default()
    };
    let generator = LinkGenerator::from_config(&config);
    assert!(
        matches!(generator, LinkGenerator::OpenrouterLlamaWithFallback(ref t) if t == "token")
    );
}

#[test]
fn test_from_config_without_token() {
    let config = Config::default();
    let generator = LinkGenerator::from_config(&config);
    assert!(matches!(generator, LinkGenerator::Random));
}

#[test]
fn test_wants_suggestion_threshold() {
    let token = "token".to_string();

    assert!(!LinkGenerator::Random.wants_suggestion(0));

    assert!(LinkGenerator::OpenrouterLlama(token.clone()).wants_suggestion(0));
    assert!(LinkGenerator::OpenrouterLlama(token.clone()).wants_suggestion(5));

    let fallback = LinkGenerator::OpenrouterLlamaWithFallback(token);
    assert!(fallback.wants_suggestion(0));
    assert!(fallback.wants_suggestion(1));
    assert!(!fallback.wants_suggestion(2));
    assert!(!fallback.wants_suggestion(3));
}

#[test]
fn test_generate_with_suggestion_outcomes() {
    let token = "token".to_string();

    let plain = LinkGenerator::OpenrouterLlama(token.clone());
    assert_eq!(
        plain.generate_with_suggestion(Some("nice_key".to_string())),
        Some("nice_key".to_string())
    );
    assert_eq!(plain.generate_with_suggestion(None), None);

    let fallback = LinkGenerator::OpenrouterLlamaWithFallback(token);
    assert_eq!(
        fallback.generate_with_suggestion(Some("nice_key".to_string())),
        Some("nice_key".to_string())
    );
    let fell_back = fallback
        .generate_with_suggestion(None)
        .expect("fallback must produce a key");
    assert_eq!(fell_back.len(), RANDOM_KEY_LEN);
    assert!(is_valid_short_link(&fell_back));
}
