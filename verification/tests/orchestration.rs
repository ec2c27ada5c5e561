use rustify::artist::{ArtistData, ArtistErrors, ArtistResult, BodyValues, ClassifyStep,
    ResponseBody, StartOutcome, WireShape};
use rustify::artist::merge_next;
use rustify::records::{Albums, Artist, Artists, ExternalUrls, Item, TopTracks};

fn artist(id: &str, name: &str, popularity: Option<i32>) -> Artist {
    Artist {
        external_urls: ExternalUrls { spotify: format!("https://spotify/{}", id) },
        followers: None,
        genres: None,
        href: format!("https://api/{}", id),
        id: id.to_string(),
        images: None,
        name: name.to_string(),
        popularity,
        type_field: "artist".to_string(),
        uri: format!("spotify:artist:{}", id),
    }
}

fn item(name: &str) -> Item {
    Item {
        album_type: "album".to_string(),
        total_tracks: 1,
        available_markets: vec!["US".to_string()],
        external_urls: ExternalUrls { spotify: String::new() },
        href: String::new(),
        id: name.to_string(),
        images: Vec::new(),
        name: name.to_string(),
        release_date: "2001-01-01".to_string(),
        release_date_precision: "day".to_string(),
        type_field: "album".to_string(),
        uri: String::new(),
        artists: Vec::new(),
        album_group: "album".to_string(),
    }
}

fn page(items: Vec<Item>, total: i32, next: Option<&str>) -> Albums {
    Albums {
        href: String::new(),
        limit: 20,
        next: next.map(|s| s.to_string()),
        offset: 0,
        previous: None,
        total,
        items,
    }
}

fn data() -> ArtistData {
    ArtistData::new("user".to_string(), "token".to_string())
}

#[test]
fn execute_without_mode_is_a_caller_error() {
    let d = data();
    assert_eq!(
        d.start(),
        StartOutcome::Done(ArtistResult::Error(ArtistErrors::InvalidArguments))
    );
}

#[test]
fn artist_mode_builds_path_and_fetches() {
    let mut d = data();
    d.get_artist("abc");
    assert_eq!(d.artistid, "/abc");
    assert_eq!(d.start(), StartOutcome::Fetch(WireShape::OneArtist));
}

#[test]
fn artists_mode_joins_ids_with_encoded_commas() {
    let mut d = data();
    d.get_artists(&["0s1ec6aPpRZ4DCj15w1EFg", "0C0XlULifJtAgn6ZNCW2eu"]);
    assert_eq!(d.artistid, "?ids=0s1ec6aPpRZ4DCj15w1EFg%2C0C0XlULifJtAgn6ZNCW2eu");
    assert_eq!(d.start(), StartOutcome::Fetch(WireShape::ManyArtists));
}

#[test]
fn albums_mode_attaches_only_given_params() {
    let mut d = data();
    d.get_albums("abc", Some(vec!["album", "single"]), None, Some(20), None);
    assert_eq!(d.artistid, "/abc/albums");
    let params = d.query_params();
    assert_eq!(params.len(), 2);
    assert_eq!(params[0].0, "include_groups");
    assert_eq!(params[0].1, BodyValues::Str("album,single".to_string()));
    assert_eq!(params[1].0, "limit");
    assert_eq!(params[1].1, BodyValues::Int(20));
}

#[test]
fn top_tracks_mode_requires_market() {
    let mut d = data();
    d.get_top_tracks("abc", "US");
    assert_eq!(d.artistid, "/abc/top-tracks");
    let params = d.query_params();
    assert_eq!(params.len(), 1);
    assert_eq!(params[0].0, "market");
    assert_eq!(params[0].1, BodyValues::Str("US".to_string()));
    assert_eq!(d.start(), StartOutcome::Fetch(WireShape::TrackList));
}

#[test]
fn related_artists_mode_builds_path() {
    let mut d = data();
    d.get_related_artists("abc");
    assert_eq!(d.artistid, "/abc/related-artists");
    assert_eq!(d.start(), StartOutcome::Fetch(WireShape::ManyArtists));
}

#[test]
fn reconfiguring_clears_the_parameter_bag() {
    let mut d = data();
    d.get_top_tracks("abc", "US");
    d.get_artist("abc");
    assert!(d.query_params().is_empty());
}

#[test]
fn request_url_appends_suffix_to_base() {
    let mut d = data();
    d.get_artist("abc");
    assert_eq!(d.request_url(), "https://api.spotify.com/v1/artists/abc");
}

#[test]
fn auth_header_strips_quotes_and_backslashes() {
    let d = ArtistData::new("user".to_string(), "\"tok\\en\"".to_string());
    assert_eq!(d.auth_header(), "Bearer token");
}

#[test]
fn single_artist_fetch_is_classified_and_cached() {
    let mut d = data();
    d.get_artist("abc");
    assert_eq!(d.start(), StartOutcome::Fetch(WireShape::OneArtist));
    let a = artist("abc", "Some Band", Some(7));
    let step = d.classify(ResponseBody::OneArtistBody(a.clone()));
    assert_eq!(step, ClassifyStep::Done(ArtistResult::Artist(a.clone())));
    // read-through: an identical second lookup is served from the cache
    d.get_artist("abc");
    assert_eq!(d.start(), StartOutcome::Done(ArtistResult::Artist(a)));
}

#[test]
fn batch_fetch_warms_the_single_artist_cache() {
    let mut d = data();
    d.get_artists(&["A", "B"]);
    assert_eq!(d.start(), StartOutcome::Fetch(WireShape::ManyArtists));
    let a = artist("A", "First", Some(1));
    let b = artist("B", "Second", Some(2));
    let list = Artists { artists: vec![a.clone(), b.clone()] };
    let step = d.classify(ResponseBody::ManyArtistsBody(list.clone()));
    assert_eq!(step, ClassifyStep::Done(ArtistResult::Artists(list)));
    d.get_artist("A");
    assert_eq!(d.start(), StartOutcome::Done(ArtistResult::Artist(a)));
    d.get_artist("B");
    assert_eq!(d.start(), StartOutcome::Done(ArtistResult::Artist(b)));
}

#[test]
fn pagination_concatenation() {
    let one = page(vec![item("x")], 1, Some("p2"));
    let two = page(vec![item("y")], 1, None);
    let merged = one.concatenate(two);
    assert_eq!(merged.items, vec![item("x"), item("y")]);
    assert_eq!(merged.total, 2);
    assert_eq!(merged.next, None);
}

#[test]
fn albums_follow_and_merge() {
    let mut d = data();
    d.get_albums("abc", None, None, None, None);
    let step = d.classify(ResponseBody::AlbumPageBody(page(vec![item("x")], 1, Some("p2"))));
    match step {
        ClassifyStep::Follow(st) => {
            assert_eq!(st.url, "p2");
            assert_eq!(st.budget, 1);
            let done = merge_next(st, ResponseBody::AlbumPageBody(page(vec![item("y")], 1, None)));
            match done {
                ClassifyStep::Done(ArtistResult::Albums(merged)) => {
                    assert_eq!(merged.items, vec![item("x"), item("y")]);
                    assert_eq!(merged.total, 2);
                    assert_eq!(merged.next, None);
                },
                other => panic!("expected a merged page, got {:?}", other),
            }
        },
        other => panic!("expected a continuation, got {:?}", other),
    }
}

#[test]
fn follow_budget_bounds_the_continuations() {
    let mut d = data();
    d.set_page_limit(2);
    d.get_albums("abc", None, None, None, None);
    let step = d.classify(ResponseBody::AlbumPageBody(page(vec![item("x")], 1, Some("p2"))));
    let st = match step {
        ClassifyStep::Follow(st) => st,
        other => panic!("expected a continuation, got {:?}", other),
    };
    assert_eq!(st.budget, 2);
    // a second continuation is still allowed
    let step2 = merge_next(st, ResponseBody::AlbumPageBody(page(vec![item("y")], 1, Some("p3"))));
    let st2 = match step2 {
        ClassifyStep::Follow(st2) => st2,
        other => panic!("expected a continuation, got {:?}", other),
    };
    assert_eq!(st2.url, "p3");
    assert_eq!(st2.budget, 1);
    // the budget is spent: the merge ends even though a link remains
    let step3 = merge_next(st2, ResponseBody::AlbumPageBody(page(vec![item("z")], 1, Some("p4"))));
    match step3 {
        ClassifyStep::Done(ArtistResult::Albums(merged)) => {
            assert_eq!(merged.items, vec![item("x"), item("y"), item("z")]);
            assert_eq!(merged.total, 3);
            assert_eq!(merged.next, Some("p4".to_string()));
        },
        other => panic!("expected a merged page, got {:?}", other),
    }
}

#[test]
fn pagination_failure_discards_partial_pages() {
    let mut d = data();
    d.get_albums("abc", None, None, None, None);
    let step = d.classify(ResponseBody::AlbumPageBody(page(vec![item("x")], 1, Some("p2"))));
    let st = match step {
        ClassifyStep::Follow(st) => st,
        other => panic!("expected a continuation, got {:?}", other),
    };
    assert_eq!(
        merge_next(st, ResponseBody::Malformed),
        ClassifyStep::Done(ArtistResult::Error(ArtistErrors::ReqwestError))
    );
}

#[test]
fn albums_mode_never_yields_a_track_list() {
    let mut d = data();
    // warm the cache with a single-artist entry first
    d.get_artist("abc");
    d.classify(ResponseBody::OneArtistBody(artist("abc", "Some Band", None)));
    // the album lookup for the same identifier must not be served from it
    d.get_albums("abc", None, None, None, None);
    assert_eq!(d.start(), StartOutcome::Fetch(WireShape::AlbumPage));
    // and a body of the wrong shape is a decode error, not a foreign variant
    let step = d.classify(ResponseBody::TrackListBody(TopTracks { tracks: Vec::new() }));
    assert_eq!(step, ClassifyStep::Done(ArtistResult::Error(ArtistErrors::ReqwestError)));
}

#[test]
fn track_mode_never_yields_an_artist() {
    let mut d = data();
    d.get_artist("abc");
    d.classify(ResponseBody::OneArtistBody(artist("abc", "Some Band", None)));
    d.get_top_tracks("abc", "US");
    assert_eq!(d.start(), StartOutcome::Fetch(WireShape::TrackList));
    let step = d.classify(ResponseBody::OneArtistBody(artist("abc", "Some Band", None)));
    assert_eq!(step, ClassifyStep::Done(ArtistResult::Error(ArtistErrors::ReqwestError)));
}

#[test]
fn not_found_maps_to_error_and_leaves_cache_alone() {
    let mut d = data();
    d.get_artist("abc");
    let step = d.classify(ResponseBody::NotFoundStatus);
    assert_eq!(step, ClassifyStep::Done(ArtistResult::Error(ArtistErrors::ArtistNotFound)));
    // nothing was cached: the same lookup still goes to the network
    d.get_artist("abc");
    assert_eq!(d.start(), StartOutcome::Fetch(WireShape::OneArtist));
}

#[test]
fn not_found_in_batch_mode_maps_the_same_way() {
    let mut d = data();
    d.get_artists(&["A", "B"]);
    let step = d.classify(ResponseBody::NotFoundStatus);
    assert_eq!(step, ClassifyStep::Done(ArtistResult::Error(ArtistErrors::ArtistNotFound)));
    d.get_artist("A");
    assert_eq!(d.start(), StartOutcome::Fetch(WireShape::OneArtist));
}

#[test]
fn malformed_body_maps_to_decode_error() {
    let mut d = data();
    d.get_artist("abc");
    let step = d.classify(ResponseBody::Malformed);
    assert_eq!(step, ClassifyStep::Done(ArtistResult::Error(ArtistErrors::ReqwestError)));
}

#[test]
fn related_artists_are_not_cached() {
    let mut d = data();
    d.get_related_artists("abc");
    let list = Artists { artists: vec![artist("A", "First", None)] };
    let step = d.classify(ResponseBody::ManyArtistsBody(list.clone()));
    assert_eq!(step, ClassifyStep::Done(ArtistResult::RelatedArtists(list)));
    d.get_artist("A");
    assert_eq!(d.start(), StartOutcome::Fetch(WireShape::OneArtist));
}

#[test]
fn single_artist_getters_return_the_fields() {
    let r = ArtistResult::Artist(artist("abc", "Some Band", Some(55)));
    assert_eq!(r.name(), "Some Band");
    assert_eq!(r.id(), "abc");
    assert_eq!(r.popularity(), 55);
}

#[test]
fn list_getters_return_the_fields_in_order() {
    let list = Artists {
        artists: vec![artist("A", "First", None), artist("B", "Second", None)],
    };
    let r = ArtistResult::RelatedArtists(list);
    assert_eq!(r.names(), vec!["First".to_string(), "Second".to_string()]);
    assert_eq!(r.ids(), vec!["A".to_string(), "B".to_string()]);
}

#[test]
fn popularitys_collects_the_figures_in_order() {
    let list = Artists {
        artists: vec![artist("A", "First", Some(11)), artist("B", "Second", Some(22))],
    };
    let r = ArtistResult::Artists(list);
    assert_eq!(r.popularitys(), vec![11, 22]);
    let related = Artists { artists: vec![artist("C", "Third", Some(33))] };
    assert_eq!(ArtistResult::RelatedArtists(related).popularitys(), vec![33]);
}
