use informarr::identity::MediaIdentifiers;
use informarr::request::{MediaType, PendingRequest, Requester};
use informarr::store::PendingStore;

fn request(media_type: MediaType, primary: Option<i32>, secondary: Option<i32>, title: &str) -> PendingRequest {
    PendingRequest {
        media_type,
        ids: MediaIdentifiers::new(primary, secondary),
        title: title.to_string(),
        overview: String::new(),
        image_url: None,
        created_at: 0,
        requested_seasons: match media_type {
            MediaType::TV => Some(vec![1]),
            MediaType::Movie => None,
        },
        requested_by: Requester { display_name: "ann".to_string(), discord_id: None },
    }
}

#[test]
fn new_store_is_empty() {
    let store = PendingStore::new();
    assert_eq!(store.len(), 0);
    assert!(store.is_empty());
    assert!(store.snapshot().is_empty());
}

#[test]
fn upsert_twice_leaves_one() {
    let mut store = PendingStore::new();
    assert!(store.upsert(request(MediaType::TV, Some(10), Some(20), "first")));
    assert!(!store.upsert(request(MediaType::TV, Some(10), Some(20), "second")));
    assert_eq!(store.len(), 1);
    assert_eq!(store.snapshot()[0].title, "first");
}

#[test]
fn upsert_sees_a_shared_secondary_id() {
    let mut store = PendingStore::new();
    assert!(store.upsert(request(MediaType::TV, Some(10), Some(20), "first")));
    assert!(!store.upsert(request(MediaType::TV, Some(11), Some(20), "second")));
    assert!(!store.upsert(request(MediaType::TV, Some(10), None, "third")));
    assert!(store.upsert(request(MediaType::TV, Some(11), Some(21), "fourth")));
    assert_eq!(store.len(), 2);
}

#[test]
fn upsert_of_absent_identifiers_is_taken_each_time() {
    let mut store = PendingStore::new();
    assert!(store.upsert(request(MediaType::Movie, None, None, "a")));
    assert!(store.upsert(request(MediaType::Movie, None, None, "b")));
    assert_eq!(store.len(), 2);
}

#[test]
fn find_tv_falls_back_to_the_secondary_id() {
    let mut store = PendingStore::new();
    store.upsert(request(MediaType::TV, None, Some(5), "show"));
    let found = store.find_tv(None, Some(5));
    assert_eq!(found.map(|r| r.title), Some("show".to_string()));
    assert!(store.find_tv(None, None).is_none());
    assert!(store.find_tv(Some(5), None).is_none());
    assert!(store.find_tv(Some(9), Some(5)).is_some());
}

#[test]
fn find_tv_passes_over_movies() {
    let mut store = PendingStore::new();
    store.upsert(request(MediaType::Movie, Some(1), None, "movie"));
    store.upsert(request(MediaType::TV, Some(2), Some(7), "show"));
    assert!(store.find_tv(Some(1), None).is_none());
    assert_eq!(store.find_tv(Some(2), None).map(|r| r.title), Some("show".to_string()));
    assert_eq!(store.len(), 2);
}

#[test]
fn find_movie_goes_by_the_primary_id() {
    let mut store = PendingStore::new();
    store.upsert(request(MediaType::TV, Some(2), Some(7), "show"));
    store.upsert(request(MediaType::Movie, Some(1), Some(8), "movie"));
    assert_eq!(store.find_movie(Some(1)).map(|r| r.title), Some("movie".to_string()));
    assert!(store.find_movie(Some(2)).is_none());
    assert!(store.find_movie(Some(8)).is_none());
    assert!(store.find_movie(None).is_none());
}

#[test]
fn remove_takes_out_the_named_request_only() {
    let mut store = PendingStore::new();
    store.upsert(request(MediaType::Movie, Some(1), None, "a"));
    store.upsert(request(MediaType::TV, Some(2), Some(7), "b"));
    store.upsert(request(MediaType::Movie, Some(3), None, "c"));
    assert!(!store.remove(MediaType::Movie, MediaIdentifiers::new(None, Some(7))));
    assert!(store.remove(MediaType::TV, MediaIdentifiers::new(None, Some(7))));
    let left: Vec<String> = store.snapshot().into_iter().map(|r| r.title).collect();
    assert_eq!(left, vec!["a".to_string(), "c".to_string()]);
    assert!(!store.remove(MediaType::TV, MediaIdentifiers::new(None, Some(7))));
    assert!(!store.remove(MediaType::Movie, MediaIdentifiers::new(None, None)));
    assert_eq!(store.len(), 2);
}

#[test]
fn clear_empties_the_store() {
    let mut store = PendingStore::new();
    store.upsert(request(MediaType::Movie, Some(1), None, "a"));
    store.upsert(request(MediaType::Movie, Some(2), None, "b"));
    store.clear();
    assert!(store.is_empty());
    assert!(store.find_movie(Some(1)).is_none());
}

#[test]
fn snapshot_keeps_the_order_and_the_fields() {
    let mut store = PendingStore::new();
    let mut first = request(MediaType::TV, Some(1), Some(2), "a");
    first.overview = "about a".to_string();
    first.image_url = Some("https://example.net/a.jpg".to_string());
    first.created_at = 1_700_000_000_000_000_000;
    first.requested_seasons = Some(vec![3, 1, 2]);
    first.requested_by = Requester { display_name: "bob".to_string(), discord_id: Some("42".to_string()) };
    store.upsert(first);
    store.upsert(request(MediaType::Movie, Some(5), None, "b"));
    let copy = store.snapshot();
    assert_eq!(copy.len(), 2);
    assert_eq!(copy[0].media_type, MediaType::TV);
    assert_eq!(copy[0].ids.primary_id, Some(1));
    assert_eq!(copy[0].ids.secondary_id, Some(2));
    assert_eq!(copy[0].overview, "about a");
    assert_eq!(copy[0].image_url, Some("https://example.net/a.jpg".to_string()));
    assert_eq!(copy[0].created_at, 1_700_000_000_000_000_000);
    assert_eq!(copy[0].requested_seasons, Some(vec![3, 1, 2]));
    assert_eq!(copy[0].requested_by.display_name, "bob");
    assert_eq!(copy[0].requested_by.discord_id, Some("42".to_string()));
    assert_eq!(copy[1].title, "b");
    assert_eq!(copy[1].requested_seasons, None);
}

#[test]
fn rebuild_forgets_what_was_there() {
    let source = vec![
        request(MediaType::Movie, Some(1), None, "a"),
        request(MediaType::TV, Some(2), Some(7), "b"),
    ];
    let mut stale = PendingStore::new();
    stale.upsert(request(MediaType::Movie, Some(99), None, "gone"));
    stale.upsert(request(MediaType::Movie, Some(1), None, "old a"));
    stale.rebuild(&source);
    let mut fresh = PendingStore::new();
    fresh.rebuild(&source);
    let titles = |store: &PendingStore| -> Vec<String> {
        store.snapshot().into_iter().map(|r| r.title).collect()
    };
    assert_eq!(titles(&stale), vec!["a".to_string(), "b".to_string()]);
    assert_eq!(titles(&stale), titles(&fresh));
}

#[test]
fn rebuild_takes_each_media_item_once() {
    let source = vec![
        request(MediaType::TV, Some(2), Some(7), "first"),
        request(MediaType::TV, Some(2), Some(7), "second"),
        request(MediaType::Movie, Some(3), None, "third"),
    ];
    let mut store = PendingStore::new();
    store.rebuild(&source);
    let titles: Vec<String> = store.snapshot().into_iter().map(|r| r.title).collect();
    assert_eq!(titles, vec!["first".to_string(), "third".to_string()]);
}

#[test]
fn a_movie_and_a_show_share_a_number_without_being_one_item() {
    let mut store = PendingStore::new();
    assert!(store.upsert(request(MediaType::TV, Some(10), Some(20), "show")));
    assert!(store.upsert(request(MediaType::Movie, Some(10), None, "movie")));
    assert!(!store.upsert(request(MediaType::Movie, Some(10), None, "movie again")));
    assert_eq!(store.len(), 2);
    assert_eq!(store.find_movie(Some(10)).map(|r| r.title), Some("movie".to_string()));
    assert_eq!(store.find_tv(Some(10), None).map(|r| r.title), Some("show".to_string()));
    assert!(store.find_movie(Some(11)).is_none());
    assert_eq!(store.len(), 2);
}

#[test]
fn removing_the_show_leaves_the_movie_of_the_same_number() {
    let mut store = PendingStore::new();
    store.upsert(request(MediaType::Movie, Some(10), None, "movie"));
    store.upsert(request(MediaType::TV, Some(10), Some(20), "show"));
    assert!(store.remove(MediaType::TV, MediaIdentifiers::new(Some(10), Some(20))));
    let left: Vec<String> = store.snapshot().into_iter().map(|r| r.title).collect();
    assert_eq!(left, vec!["movie".to_string()]);
    assert!(!store.remove(MediaType::TV, MediaIdentifiers::new(Some(10), Some(20))));
    assert!(store.remove(MediaType::Movie, MediaIdentifiers::new(Some(10), Some(20))));
    assert!(store.is_empty());
}
