//! Unit tests of the identifier generator, the decision core, and URL
//! validation.

use url_shortener::errors::CreateError;
use url_shortener::errors::LookupError;
use url_shortener::link::Link;
use url_shortener::link::is_wf_token;
use url_shortener::protocol::CreateStep;
use url_shortener::protocol::InsertEvent;
use url_shortener::protocol::LookupEvent;
use url_shortener::protocol::RETRY_BUDGET;
use url_shortener::protocol::STORE_TIMEOUT_MS;
use url_shortener::protocol::create_decision;
use url_shortener::protocol::lookup_decision;
use url_shortener::token::ScriptedTokens;
use url_shortener::token::generate_id;
use url_shortener::token::token_of;
use url_shortener::token::u32_decimal;
use url_shortener::urls::canonical_url;

use base64::Engine;

#[test]
fn decimal_digits_exact() {
    assert_eq!(u32_decimal(0), b"0".to_vec());
    assert_eq!(u32_decimal(7), b"7".to_vec());
    assert_eq!(u32_decimal(10), b"10".to_vec());
    assert_eq!(u32_decimal(305), b"305".to_vec());
    assert_eq!(u32_decimal(u32::MAX), b"4294967295".to_vec());
}

#[test]
fn token_of_exact() {
    // URL-safe base64, no padding, of the decimal digit strings.
    assert_eq!(token_of(0), "MA");
    assert_eq!(token_of(123), "MTIz");
    assert_eq!(token_of(u32::MAX - 1), "NDI5NDk2NzI5NA");
}

#[test]
fn token_of_matches_engine() {
    let expected = base64::engine::general_purpose::URL_SAFE_NO_PAD.encode(b"98765");
    assert_eq!(token_of(98765), expected);
}

#[test]
fn generated_tokens_are_well_formed() {
    for _ in 0..100 {
        let t = generate_id();
        assert!(is_wf_token(&t));
        assert!(t.len() >= 2);
        assert!(t.len() <= 14);
        // The URL-safe base64 alphabet exactly: no padding, none of the
        // other unreserved marks.
        assert!(t
            .chars()
            .all(|c| c.is_ascii_alphanumeric() || c == '-' || c == '_'));
    }
}

#[test]
fn scripted_tokens_follow_their_script() {
    let mut s = ScriptedTokens::new(vec!["t1".to_string(), "t2".to_string()]).unwrap();
    assert_eq!(s.drawn_count(), 0);
    assert_eq!(s.next_scripted(), "t1");
    assert_eq!(s.drawn_count(), 1);
    assert_eq!(s.next_scripted(), "t2");
    assert_eq!(s.drawn_count(), 2);
    // The script is spent: the last token repeats and the count stays.
    assert_eq!(s.next_scripted(), "t2");
    assert_eq!(s.next_scripted(), "t2");
    assert_eq!(s.drawn_count(), 2);
}

#[test]
fn well_formed_token_check() {
    assert!(is_wf_token(&"abc-_".to_string()));
    assert!(is_wf_token(&"A0z9.~".to_string()));
    assert!(!is_wf_token(&"".to_string()));
    assert!(!is_wf_token(&"a b".to_string()));
    assert!(!is_wf_token(&"a/b".to_string()));
    assert!(!is_wf_token(&"a+b".to_string()));
}

#[test]
fn scripted_tokens_reject_bad_scripts() {
    assert!(ScriptedTokens::new(Vec::new()).is_none());
    assert!(ScriptedTokens::new(vec!["ok".to_string(), "not ok".to_string()]).is_none());
    assert!(ScriptedTokens::new(vec!["ok".to_string()]).is_some());
}

#[test]
fn create_decision_retries_only_collisions_within_budget() {
    assert_eq!(RETRY_BUDGET, 3);
    assert_eq!(
        create_decision(0, InsertEvent::UniqueViolation),
        CreateStep::Retry
    );
    assert_eq!(
        create_decision(1, InsertEvent::UniqueViolation),
        CreateStep::Retry
    );
    assert_eq!(
        create_decision(2, InsertEvent::UniqueViolation),
        CreateStep::Done(Err(CreateError::IdSpaceExhausted))
    );
}

#[test]
fn create_decision_never_retries_failures() {
    for attempt in 0..RETRY_BUDGET {
        assert_eq!(
            create_decision(attempt, InsertEvent::TimedOut),
            CreateStep::Done(Err(CreateError::StoreTimeout))
        );
        assert_eq!(
            create_decision(attempt, InsertEvent::Failed),
            CreateStep::Done(Err(CreateError::StoreError))
        );
    }
}

#[test]
fn create_decision_returns_inserted_row() {
    let row = Link {
        id: "x1".to_string(),
        target_url: "https://example.com/".to_string(),
    };
    let expected = Link {
        id: "x1".to_string(),
        target_url: "https://example.com/".to_string(),
    };
    assert_eq!(
        create_decision(2, InsertEvent::Inserted(row)),
        CreateStep::Done(Ok(expected))
    );
}

#[test]
fn lookup_decision_is_timeout_isolated() {
    // A slow store read fails the lookup at once with StoreTimeout; there
    // is no retry path in the lookup protocol.
    assert_eq!(
        lookup_decision(LookupEvent::TimedOut),
        Err(LookupError::StoreTimeout)
    );
    assert_eq!(
        lookup_decision(LookupEvent::Failed),
        Err(LookupError::StoreError)
    );
    assert_eq!(
        lookup_decision(LookupEvent::Missing),
        Err(LookupError::NotFound)
    );
    assert_eq!(STORE_TIMEOUT_MS, 300);
}

#[test]
fn canonical_url_accepts_absolute_urls() {
    assert_eq!(
        canonical_url(&"https://example.com".to_string()),
        Ok("https://example.com/".to_string())
    );
    assert_eq!(
        canonical_url(&"HTTPS://EXAMPLE.COM/Path".to_string()),
        Ok("https://example.com/Path".to_string())
    );
}

#[test]
fn canonical_url_rejects_malformed_input() {
    assert_eq!(
        canonical_url(&"not a url".to_string()),
        Err(CreateError::MalformedInput)
    );
    assert_eq!(
        canonical_url(&"".to_string()),
        Err(CreateError::MalformedInput)
    );
    assert_eq!(
        canonical_url(&"example.com".to_string()),
        Err(CreateError::MalformedInput)
    );
}

#[test]
fn canonical_url_is_idempotent() {
    let once = canonical_url(&"http://Example.COM:80/a/../b".to_string()).unwrap();
    let twice = canonical_url(&once).unwrap();
    assert_eq!(once, twice);
}
