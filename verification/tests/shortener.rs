//! End-to-end tests of the create/lookup protocol against the in-memory
//! link table, with scripted token sources forcing collisions.

use url_shortener::coordinator::create_link;
use url_shortener::coordinator::lookup;
use url_shortener::errors::CreateError;
use url_shortener::errors::LookupError;
use url_shortener::link::NewLink;
use url_shortener::store::LinkTable;
use url_shortener::token::RandomTokens;
use url_shortener::token::ScriptedTokens;

fn script(tokens: &[&str]) -> ScriptedTokens {
    let owned: Vec<String> = tokens.iter().map(|t| t.to_string()).collect();
    ScriptedTokens::new(owned).expect("script tokens must be well-formed")
}

fn new_link(target: &str) -> NewLink {
    NewLink {
        target_url: target.to_string(),
    }
}

#[test]
fn round_trip_create_then_lookup() {
    let mut table = LinkTable::new();
    let mut tokens = script(&["abc123"]);

    let link = create_link(&mut table, &mut tokens, &new_link("https://example.com")).unwrap();
    assert_eq!(link.id, "abc123");
    assert_eq!(link.target_url, "https://example.com/");

    let found = lookup(&table, &link.id).unwrap();
    assert_eq!(found.id, "abc123");
    assert_eq!(found.target_url, "https://example.com/");

    // Re-parsing the stored value yields the same string.
    let reparsed = url::Url::parse(&found.target_url).unwrap();
    assert_eq!(reparsed.as_str(), found.target_url);
}

#[test]
fn round_trip_keeps_path_and_query() {
    let mut table = LinkTable::new();
    let mut tokens = script(&["q1"]);

    let raw = "https://example.net/a/b?k=v#frag";
    let link = create_link(&mut table, &mut tokens, &new_link(raw)).unwrap();
    let expected = url::Url::parse(raw).unwrap();
    assert_eq!(link.target_url, expected.as_str());

    let found = lookup(&table, &link.id).unwrap();
    assert_eq!(found.target_url, expected.as_str());
}

#[test]
fn create_canonicalizes_target() {
    let mut table = LinkTable::new();
    let mut tokens = script(&["c1"]);

    let link = create_link(&mut table, &mut tokens, &new_link("HTTPS://EXAMPLE.COM")).unwrap();
    assert_eq!(link.target_url, "https://example.com/");
}

#[test]
fn uniqueness_under_token_collisions() {
    let mut table = LinkTable::new();
    // The source repeats "t1", so the second create collides once and must
    // fall back to "t2".
    let mut tokens = script(&["t1", "t1", "t2"]);

    let first = create_link(&mut table, &mut tokens, &new_link("https://one.example")).unwrap();
    let second = create_link(&mut table, &mut tokens, &new_link("https://two.example")).unwrap();
    assert_eq!(first.id, "t1");
    assert_eq!(second.id, "t2");
    assert_ne!(first.id, second.id);
    assert_eq!(table.len(), 2);
}

#[test]
fn uniqueness_across_many_creates() {
    let mut table = LinkTable::new();
    let mut tokens = RandomTokens;
    let mut ids: Vec<String> = Vec::new();
    for i in 0..32 {
        let target = format!("https://example.org/{}", i);
        let link = create_link(&mut table, &mut tokens, &new_link(&target)).unwrap();
        ids.push(link.id);
    }
    for i in 0..ids.len() {
        for j in (i + 1)..ids.len() {
            assert_ne!(ids[i], ids[j]);
        }
    }
}

#[test]
fn retry_exhaustion_leaves_store_unchanged() {
    let mut table = LinkTable::new();
    let mut seed = script(&["a1", "b2", "c3"]);
    for target in ["https://a.example", "https://b.example", "https://c.example"] {
        create_link(&mut table, &mut seed, &new_link(target)).unwrap();
    }
    assert_eq!(table.len(), 3);

    // Every token the source yields is already taken, across the whole
    // retry budget.
    let mut colliding = script(&["a1", "b2", "c3"]);
    let res = create_link(&mut table, &mut colliding, &new_link("https://d.example"));
    assert_eq!(res, Err(CreateError::IdSpaceExhausted));
    assert_eq!(table.len(), 3);
    assert_eq!(colliding.drawn_count(), 3);
}

#[test]
fn exhausted_script_repeats_last_token() {
    let mut table = LinkTable::new();
    let mut tokens = script(&["only"]);

    create_link(&mut table, &mut tokens, &new_link("https://a.example")).unwrap();
    // The script is spent, so every further draw repeats "only" and
    // collides for the whole budget.
    let res = create_link(&mut table, &mut tokens, &new_link("https://b.example"));
    assert_eq!(res, Err(CreateError::IdSpaceExhausted));
    assert_eq!(table.len(), 1);
}

#[test]
fn malformed_rejection_before_store_interaction() {
    let mut table = LinkTable::new();
    let mut tokens = script(&["zz"]);

    let res = create_link(&mut table, &mut tokens, &new_link("not a url"));
    assert_eq!(res, Err(CreateError::MalformedInput));
    // No row was written and no token was drawn: the request was rejected
    // before any store interaction.
    assert_eq!(table.len(), 0);
    assert_eq!(tokens.drawn_count(), 0);
}

#[test]
fn relative_url_is_malformed() {
    let mut table = LinkTable::new();
    let mut tokens = script(&["zz"]);
    let res = create_link(&mut table, &mut tokens, &new_link("/relative/path"));
    assert_eq!(res, Err(CreateError::MalformedInput));
}

#[test]
fn not_found_on_empty_store() {
    let table = LinkTable::new();
    let res = lookup(&table, &"nonexistent-id".to_string());
    assert_eq!(res, Err(LookupError::NotFound));
}

#[test]
fn lookup_of_other_id_is_not_found() {
    let mut table = LinkTable::new();
    let mut tokens = script(&["k9"]);
    create_link(&mut table, &mut tokens, &new_link("https://example.com")).unwrap();
    let res = lookup(&table, &"other".to_string());
    assert_eq!(res, Err(LookupError::NotFound));
}
