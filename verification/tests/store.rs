use lnk::codec::is_clean;
use lnk::store::{Database, PutError};

const ALPHABET: &str = "ABCDEFGHJKLMNPQRSTUVWXYZabcdefghijkmnopqrstuvwxyz23456789";

#[test]
fn custom_put_round_trips() {
    let mut db = Database::open_temporary();
    let slug = db
        .put(Some("abc".to_string()), "https://example.com/page", 5)
        .expect("valid custom put must succeed");
    assert_eq!(slug, "abc");
    assert_eq!(db.get("abc"), Some("https://example.com/page".to_string()));
}

#[test]
fn custom_put_overwrites_silently() {
    let mut db = Database::open_temporary();
    let first = db.put(Some("abc".to_string()), "https://example.com/one", 5);
    assert_eq!(first, Ok("abc".to_string()));
    let second = db.put(Some("abc".to_string()), "https://example.com/two", 5);
    assert_eq!(second, Ok("abc".to_string()));
    assert_eq!(db.get("abc"), Some("https://example.com/two".to_string()));
}

#[test]
fn get_misses_on_unwritten_slug() {
    let db = Database::open_temporary();
    assert_eq!(db.get("doesnotexist"), None);
}

#[test]
fn get_misses_even_after_other_writes() {
    let mut db = Database::open_temporary();
    db.put(Some("abc".to_string()), "https://example.com", 5)
        .expect("valid custom put must succeed");
    assert_eq!(db.get("doesnotexist"), None);
}

#[test]
fn generated_put_on_empty_store() {
    let mut db = Database::open_temporary();
    let slug = db
        .put(None, "https://example.com", 5)
        .expect("allocation on an empty store must succeed");
    assert_eq!(slug.chars().count(), 5);
    for c in slug.chars() {
        assert!(ALPHABET.contains(c), "unexpected character {c:?}");
    }
    assert_eq!(db.get(&slug), Some("https://example.com".to_string()));
}

#[test]
fn empty_custom_slug_takes_generation_path() {
    let mut db = Database::open_temporary();
    let slug = db
        .put(Some(String::new()), "https://example.com", 5)
        .expect("allocation on an empty store must succeed");
    assert_eq!(slug.chars().count(), 5);
    assert_ne!(slug, "");
    // No empty-string key was ever stored.
    assert_eq!(db.get(""), None);
}

#[test]
fn dirty_custom_slug_takes_generation_path() {
    let mut db = Database::open_temporary();
    let slug = db
        .put(Some("not clean!".to_string()), "https://example.com", 5)
        .expect("allocation on an empty store must succeed");
    assert_eq!(slug.chars().count(), 5);
    assert!(is_clean(&slug));
    assert_eq!(db.get("not clean!"), None);
}

#[test]
fn generated_slugs_never_repeat() {
    let mut db = Database::open_temporary();
    let mut seen = Vec::new();
    for _ in 0..30 {
        let slug = db
            .put(None, "https://example.com", 2)
            .expect("sparse keyspace allocation must succeed");
        assert!(!seen.contains(&slug), "slug {slug:?} was returned twice");
        seen.push(slug);
    }
}

#[test]
fn unparseable_target_is_rejected() {
    let mut db = Database::open_temporary();
    let r = db.put(Some("abc".to_string()), "http://exa mple.com", 5);
    assert_eq!(r, Err(PutError::InvalidTargetUri));
    // Nothing was stored by the rejected request.
    assert_eq!(db.get("abc"), None);
}

#[test]
fn empty_target_is_rejected() {
    let mut db = Database::open_temporary();
    let r = db.put(None, "", 5);
    assert_eq!(r, Err(PutError::InvalidTargetUri));
}

#[test]
fn relative_target_is_accepted() {
    // The store does not validate scheme or TLD: any syntactically
    // parseable URI is stored as handed in.
    let mut db = Database::open_temporary();
    let slug = db
        .put(Some("rel".to_string()), "/just/a/path", 5)
        .expect("a relative URI parses");
    assert_eq!(db.get(&slug), Some("/just/a/path".to_string()));
}

#[test]
fn full_keyspace_reports_exhaustion() {
    let mut db = Database::open_temporary();
    // Occupy every single-character slug of the generated alphabet.
    for c in ALPHABET.chars() {
        let r = db.put(Some(c.to_string()), "https://example.com", 1);
        assert_eq!(r, Ok(c.to_string()));
    }
    // Every candidate the generator can draw is now occupied.
    let r = db.put(None, "https://example.com", 1);
    assert_eq!(r, Err(PutError::SlugSpaceExhausted));
}
