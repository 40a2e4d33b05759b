use informarr::identity::MediaIdentifiers;

#[test]
fn secondary_id_alone_is_enough() {
    let request = MediaIdentifiers::new(None, Some(5));
    let event = MediaIdentifiers::new(None, Some(5));
    assert!(informarr::identity::matches(request, event));
}

#[test]
fn absent_identifiers_never_match() {
    let request = MediaIdentifiers::new(None, Some(5));
    let event = MediaIdentifiers::new(None, None);
    assert!(!informarr::identity::matches(request, event));
    assert!(!informarr::identity::matches(event, request));
    assert!(!informarr::identity::matches(event, event));
}

#[test]
fn primary_id_matches_whatever_the_secondary() {
    let a = MediaIdentifiers::new(Some(42), Some(1));
    let b = MediaIdentifiers::new(Some(42), None);
    let c = MediaIdentifiers::new(Some(43), Some(2));
    assert!(informarr::identity::matches(a, b));
    assert!(informarr::identity::matches(b, a));
    assert!(!informarr::identity::matches(a, c));
    assert!(!informarr::identity::matches(c, a));
}
