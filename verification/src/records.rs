use vstd::prelude::*;

verus! {

/// Holds when every possible result of `T::clone` keeps the deep view.
pub open spec fn clone_preserves_deep<T: Clone + DeepView>() -> bool {
    forall|x: &T, y: T|
        #[trigger] call_ensures(T::clone, (x,), y) ==> y.deep_view() == x.deep_view()
}

/// Copies a vector element by element; the copy has the same deep view.
pub fn clone_vec_deep<T: Clone + DeepView>(v: &Vec<T>) -> (r: Vec<T>)
    requires
        clone_preserves_deep::<T>(),
    ensures
        r.deep_view() == v.deep_view(),
{
    let mut r: Vec<T> = Vec::new();
    let n = v.len();
    let mut i: usize = 0;
    while i < n
        invariant
            clone_preserves_deep::<T>(),
            i <= n,
            n == v.len(),
            r.len() == i,
            forall|j: int| 0 <= j < i ==> r.deep_view()[j] == v.deep_view()[j],
        decreases n - i,
    {
        r.push(v[i].clone());
        i = i + 1;
    }
    proof {
        assert(r.deep_view() =~= v.deep_view());
    }
    r
}

/// Copies an optional vector, keeping the deep view.
pub fn clone_opt_vec_deep<T: Clone + DeepView>(v: &Option<Vec<T>>) -> (r: Option<Vec<T>>)
    requires
        clone_preserves_deep::<T>(),
    ensures
        r.deep_view() == v.deep_view(),
{
    match v {
        Some(inner) => Some(clone_vec_deep(inner)),
        None => None,
    }
}

/// Copies an optional string, keeping the deep view.
pub fn clone_opt_string(v: &Option<String>) -> (r: Option<String>)
    ensures
        r.deep_view() == v.deep_view(),
{
    match v {
        Some(inner) => Some(inner.clone()),
        None => None,
    }
}

#[derive(Debug, PartialEq)]
pub struct ExternalUrls {
    pub spotify: String,
}

pub ghost struct ExternalUrlsView {
    pub spotify: Seq<char>,
}

impl DeepView for ExternalUrls {
    type V = ExternalUrlsView;

    open spec fn deep_view(&self) -> ExternalUrlsView {
        ExternalUrlsView { spotify: self.spotify@ }
    }
}

impl Clone for ExternalUrls {
    fn clone(&self) -> (r: Self)
        ensures
            r.deep_view() == self.deep_view(),
    {
        ExternalUrls { spotify: self.spotify.clone() }
    }
}

#[derive(Debug, PartialEq)]
pub struct Followers {
    pub href: Option<String>,
    pub total: i32,
}

pub ghost struct FollowersView {
    pub href: Option<Seq<char>>,
    pub total: i32,
}

impl DeepView for Followers {
    type V = FollowersView;

    open spec fn deep_view(&self) -> FollowersView {
        FollowersView { href: self.href.deep_view(), total: self.total }
    }
}

impl Clone for Followers {
    fn clone(&self) -> (r: Self)
        ensures
            r.deep_view() == self.deep_view(),
    {
        Followers { href: clone_opt_string(&self.href), total: self.total }
    }
}

#[derive(Debug, PartialEq)]
pub struct Image {
    pub url: String,
    pub height: Option<i32>,
    pub width: Option<i32>,
}

pub ghost struct ImageView {
    pub url: Seq<char>,
    pub height: Option<i32>,
    pub width: Option<i32>,
}

impl DeepView for Image {
    type V = ImageView;

    open spec fn deep_view(&self) -> ImageView {
        ImageView { url: self.url@, height: self.height, width: self.width }
    }
}

impl Clone for Image {
    fn clone(&self) -> (r: Self)
        ensures
            r.deep_view() == self.deep_view(),
    {
        Image { url: self.url.clone(), height: self.height, width: self.width }
    }
}

/// `Image::clone` keeps the deep view, stated for use at `Vec<Image>` copies.
pub proof fn lemma_image_clone_deep()
    ensures
        clone_preserves_deep::<Image>(),
{
}

#[derive(Debug, PartialEq)]
pub struct Artist {
    pub external_urls: ExternalUrls,
    pub followers: Option<Followers>,
    pub genres: Option<Vec<String>>,
    pub href: String,
    pub id: String,
    pub images: Option<Vec<Image>>,
    pub name: String,
    pub popularity: Option<i32>,
    pub type_field: String,
    pub uri: String,
}

pub ghost struct ArtistView {
    pub external_urls: ExternalUrlsView,
    pub followers: Option<FollowersView>,
    pub genres: Option<Seq<Seq<char>>>,
    pub href: Seq<char>,
    pub id: Seq<char>,
    pub images: Option<Seq<ImageView>>,
    pub name: Seq<char>,
    pub popularity: Option<i32>,
    pub type_field: Seq<char>,
    pub uri: Seq<char>,
}

impl DeepView for Artist {
    type V = ArtistView;

    open spec fn deep_view(&self) -> ArtistView {
        ArtistView {
            external_urls: self.external_urls.deep_view(),
            followers: self.followers.deep_view(),
            genres: self.genres.deep_view(),
            href: self.href@,
            id: self.id@,
            images: self.images.deep_view(),
            name: self.name@,
            popularity: self.popularity,
            type_field: self.type_field@,
            uri: self.uri@,
        }
    }
}

impl Clone for Artist {
    fn clone(&self) -> (r: Self)
        ensures
            r.deep_view() == self.deep_view(),
    {
        proof {
            lemma_image_clone_deep();
            lemma_string_clone_deep();
        }
        let followers = match &self.followers {
            Some(f) => Some(f.clone()),
            None => None,
        };
        Artist {
            external_urls: self.external_urls.clone(),
            followers,
            genres: clone_opt_vec_deep(&self.genres),
            href: self.href.clone(),
            id: self.id.clone(),
            images: clone_opt_vec_deep(&self.images),
            name: self.name.clone(),
            popularity: self.popularity,
            type_field: self.type_field.clone(),
            uri: self.uri.clone(),
        }
    }
}

/// `String::clone` returns an equal string, so it keeps the deep view.
pub proof fn lemma_string_clone_deep()
    ensures
        clone_preserves_deep::<String>(),
{
}

/// `Artist::clone` keeps the deep view, stated for use at `Vec<Artist>` copies.
pub proof fn lemma_artist_clone_deep()
    ensures
        clone_preserves_deep::<Artist>(),
{
}

#[derive(Debug, PartialEq)]
pub struct Artists {
    pub artists: Vec<Artist>,
}

pub ghost struct ArtistsView {
    pub artists: Seq<ArtistView>,
}

impl DeepView for Artists {
    type V = ArtistsView;

    open spec fn deep_view(&self) -> ArtistsView {
        ArtistsView { artists: self.artists.deep_view() }
    }
}

impl Clone for Artists {
    fn clone(&self) -> (r: Self)
        ensures
            r.deep_view() == self.deep_view(),
    {
        proof {
            lemma_artist_clone_deep();
        }
        Artists { artists: clone_vec_deep(&self.artists) }
    }
}

#[derive(Debug, PartialEq)]
pub struct Restrictions {
    pub reason: String,
}

pub ghost struct RestrictionsView {
    pub reason: Seq<char>,
}

impl DeepView for Restrictions {
    type V = RestrictionsView;

    open spec fn deep_view(&self) -> RestrictionsView {
        RestrictionsView { reason: self.reason@ }
    }
}

impl Clone for Restrictions {
    fn clone(&self) -> (r: Self)
        ensures
            r.deep_view() == self.deep_view(),
    {
        Restrictions { reason: self.reason.clone() }
    }
}

#[derive(Debug, PartialEq)]
pub struct ExternalIds {
    pub isrc: String,
    pub ean: Option<String>,
    pub upc: Option<String>,
}

pub ghost struct ExternalIdsView {
    pub isrc: Seq<char>,
    pub ean: Option<Seq<char>>,
    pub upc: Option<Seq<char>>,
}

impl DeepView for ExternalIds {
    type V = ExternalIdsView;

    open spec fn deep_view(&self) -> ExternalIdsView {
        ExternalIdsView {
            isrc: self.isrc@,
            ean: self.ean.deep_view(),
            upc: self.upc.deep_view(),
        }
    }
}

impl Clone for ExternalIds {
    fn clone(&self) -> (r: Self)
        ensures
            r.deep_view() == self.deep_view(),
    {
        ExternalIds {
            isrc: self.isrc.clone(),
            ean: clone_opt_string(&self.ean),
            upc: clone_opt_string(&self.upc),
        }
    }
}

#[derive(Debug, PartialEq)]
pub struct LinkedFrom {}

pub ghost struct LinkedFromView {}

impl DeepView for LinkedFrom {
    type V = LinkedFromView;

    open spec fn deep_view(&self) -> LinkedFromView {
        LinkedFromView {  }
    }
}

impl Clone for LinkedFrom {
    fn clone(&self) -> (r: Self)
        ensures
            r.deep_view() == self.deep_view(),
    {
        LinkedFrom {  }
    }
}

#[derive(Debug, PartialEq)]
pub struct Item {
    pub album_type: String,
    pub total_tracks: i32,
    pub available_markets: Vec<String>,
    pub external_urls: ExternalUrls,
    pub href: String,
    pub id: String,
    pub images: Vec<Image>,
    pub name: String,
    pub release_date: String,
    pub release_date_precision: String,
    pub type_field: String,
    pub uri: String,
    pub artists: Vec<Artist>,
    pub album_group: String,
}

pub ghost struct ItemView {
    pub album_type: Seq<char>,
    pub total_tracks: i32,
    pub available_markets: Seq<Seq<char>>,
    pub external_urls: ExternalUrlsView,
    pub href: Seq<char>,
    pub id: Seq<char>,
    pub images: Seq<ImageView>,
    pub name: Seq<char>,
    pub release_date: Seq<char>,
    pub release_date_precision: Seq<char>,
    pub type_field: Seq<char>,
    pub uri: Seq<char>,
    pub artists: Seq<ArtistView>,
    pub album_group: Seq<char>,
}

impl DeepView for Item {
    type V = ItemView;

    open spec fn deep_view(&self) -> ItemView {
        ItemView {
            album_type: self.album_type@,
            total_tracks: self.total_tracks,
            available_markets: self.available_markets.deep_view(),
            external_urls: self.external_urls.deep_view(),
            href: self.href@,
            id: self.id@,
            images: self.images.deep_view(),
            name: self.name@,
            release_date: self.release_date@,
            release_date_precision: self.release_date_precision@,
            type_field: self.type_field@,
            uri: self.uri@,
            artists: self.artists.deep_view(),
            album_group: self.album_group@,
        }
    }
}

impl Clone for Item {
    fn clone(&self) -> (r: Self)
        ensures
            r.deep_view() == self.deep_view(),
    {
        proof {
            lemma_string_clone_deep();
            lemma_image_clone_deep();
            lemma_artist_clone_deep();
        }
        Item {
            album_type: self.album_type.clone(),
            total_tracks: self.total_tracks,
            available_markets: clone_vec_deep(&self.available_markets),
            external_urls: self.external_urls.clone(),
            href: self.href.clone(),
            id: self.id.clone(),
            images: clone_vec_deep(&self.images),
            name: self.name.clone(),
            release_date: self.release_date.clone(),
            release_date_precision: self.release_date_precision.clone(),
            type_field: self.type_field.clone(),
            uri: self.uri.clone(),
            artists: clone_vec_deep(&self.artists),
            album_group: self.album_group.clone(),
        }
    }
}

/// `Item::clone` keeps the deep view, stated for use at `Vec<Item>` copies.
pub proof fn lemma_item_clone_deep()
    ensures
        clone_preserves_deep::<Item>(),
{
}

/// One page of an album listing: the items, the server-reported total, and
/// an optional continuation link to the next page.
#[derive(Debug, PartialEq)]
pub struct Albums {
    pub href: String,
    pub limit: i32,
    pub next: Option<String>,
    pub offset: i32,
    pub previous: Option<String>,
    pub total: i32,
    pub items: Vec<Item>,
}

pub ghost struct AlbumsView {
    pub href: Seq<char>,
    pub limit: i32,
    pub next: Option<Seq<char>>,
    pub offset: i32,
    pub previous: Option<Seq<char>>,
    pub total: i32,
    pub items: Seq<ItemView>,
}

impl DeepView for Albums {
    type V = AlbumsView;

    open spec fn deep_view(&self) -> AlbumsView {
        AlbumsView {
            href: self.href@,
            limit: self.limit,
            next: self.next.deep_view(),
            offset: self.offset,
            previous: self.previous.deep_view(),
            total: self.total,
            items: self.items.deep_view(),
        }
    }
}

impl Clone for Albums {
    fn clone(&self) -> (r: Self)
        ensures
            r.deep_view() == self.deep_view(),
    {
        proof {
            lemma_item_clone_deep();
        }
        Albums {
            href: self.href.clone(),
            limit: self.limit,
            next: clone_opt_string(&self.next),
            offset: self.offset,
            previous: clone_opt_string(&self.previous),
            total: self.total,
            items: clone_vec_deep(&self.items),
        }
    }
}

#[derive(Debug, PartialEq)]
pub struct Album {
    pub album_type: String,
    pub total_tracks: i32,
    pub available_markets: Option<Vec<String>>,
    pub external_urls: ExternalUrls,
    pub href: String,
    pub id: String,
    pub images: Vec<Image>,
    pub name: String,
    pub release_date: String,
    pub release_date_precision: String,
    pub restrictions: Option<Restrictions>,
    pub type_field: String,
    pub uri: String,
    pub artists: Vec<Artist>,
}

pub ghost struct AlbumView {
    pub album_type: Seq<char>,
    pub total_tracks: i32,
    pub available_markets: Option<Seq<Seq<char>>>,
    pub external_urls: ExternalUrlsView,
    pub href: Seq<char>,
    pub id: Seq<char>,
    pub images: Seq<ImageView>,
    pub name: Seq<char>,
    pub release_date: Seq<char>,
    pub release_date_precision: Seq<char>,
    pub restrictions: Option<RestrictionsView>,
    pub type_field: Seq<char>,
    pub uri: Seq<char>,
    pub artists: Seq<ArtistView>,
}

impl DeepView for Album {
    type V = AlbumView;

    open spec fn deep_view(&self) -> AlbumView {
        AlbumView {
            album_type: self.album_type@,
            total_tracks: self.total_tracks,
            available_markets: self.available_markets.deep_view(),
            external_urls: self.external_urls.deep_view(),
            href: self.href@,
            id: self.id@,
            images: self.images.deep_view(),
            name: self.name@,
            release_date: self.release_date@,
            release_date_precision: self.release_date_precision@,
            restrictions: self.restrictions.deep_view(),
            type_field: self.type_field@,
            uri: self.uri@,
            artists: self.artists.deep_view(),
        }
    }
}

impl Clone for Album {
    fn clone(&self) -> (r: Self)
        ensures
            r.deep_view() == self.deep_view(),
    {
        proof {
            lemma_string_clone_deep();
            lemma_image_clone_deep();
            lemma_artist_clone_deep();
        }
        let restrictions = match &self.restrictions {
            Some(x) => Some(x.clone()),
            None => None,
        };
        Album {
            album_type: self.album_type.clone(),
            total_tracks: self.total_tracks,
            available_markets: clone_opt_vec_deep(&self.available_markets),
            external_urls: self.external_urls.clone(),
            href: self.href.clone(),
            id: self.id.clone(),
            images: clone_vec_deep(&self.images),
            name: self.name.clone(),
            release_date: self.release_date.clone(),
            release_date_precision: self.release_date_precision.clone(),
            restrictions,
            type_field: self.type_field.clone(),
            uri: self.uri.clone(),
            artists: clone_vec_deep(&self.artists),
        }
    }
}

#[derive(Debug, PartialEq)]
pub struct Track {
    pub album: Album,
    pub artists: Vec<Artist>,
    pub available_markets: Option<Vec<String>>,
    pub disc_number: i32,
    pub duration_ms: i32,
    pub explicit: bool,
    pub external_ids: ExternalIds,
    pub external_urls: ExternalUrls,
    pub href: String,
    pub id: String,
    pub is_playable: bool,
    pub linked_from: Option<LinkedFrom>,
    pub restrictions: Option<Restrictions>,
    pub name: String,
    pub popularity: i32,
    pub preview_url: Option<String>,
    pub track_number: i32,
    pub type_field: String,
    pub uri: String,
    pub is_local: bool,
}

pub ghost struct TrackView {
    pub album: AlbumView,
    pub artists: Seq<ArtistView>,
    pub available_markets: Option<Seq<Seq<char>>>,
    pub disc_number: i32,
    pub duration_ms: i32,
    pub explicit: bool,
    pub external_ids: ExternalIdsView,
    pub external_urls: ExternalUrlsView,
    pub href: Seq<char>,
    pub id: Seq<char>,
    pub is_playable: bool,
    pub linked_from: Option<LinkedFromView>,
    pub restrictions: Option<RestrictionsView>,
    pub name: Seq<char>,
    pub popularity: i32,
    pub preview_url: Option<Seq<char>>,
    pub track_number: i32,
    pub type_field: Seq<char>,
    pub uri: Seq<char>,
    pub is_local: bool,
}

impl DeepView for Track {
    type V = TrackView;

    open spec fn deep_view(&self) -> TrackView {
        TrackView {
            album: self.album.deep_view(),
            artists: self.artists.deep_view(),
            available_markets: self.available_markets.deep_view(),
            disc_number: self.disc_number,
            duration_ms: self.duration_ms,
            explicit: self.explicit,
            external_ids: self.external_ids.deep_view(),
            external_urls: self.external_urls.deep_view(),
            href: self.href@,
            id: self.id@,
            is_playable: self.is_playable,
            linked_from: self.linked_from.deep_view(),
            restrictions: self.restrictions.deep_view(),
            name: self.name@,
            popularity: self.popularity,
            preview_url: self.preview_url.deep_view(),
            track_number: self.track_number,
            type_field: self.type_field@,
            uri: self.uri@,
            is_local: self.is_local,
        }
    }
}

impl Clone for Track {
    fn clone(&self) -> (r: Self)
        ensures
            r.deep_view() == self.deep_view(),
    {
        proof {
            lemma_string_clone_deep();
            lemma_artist_clone_deep();
        }
        let linked_from = match &self.linked_from {
            Some(x) => Some(x.clone()),
            None => None,
        };
        let restrictions = match &self.restrictions {
            Some(x) => Some(x.clone()),
            None => None,
        };
        Track {
            album: self.album.clone(),
            artists: clone_vec_deep(&self.artists),
            available_markets: clone_opt_vec_deep(&self.available_markets),
            disc_number: self.disc_number,
            duration_ms: self.duration_ms,
            explicit: self.explicit,
            external_ids: self.external_ids.clone(),
            external_urls: self.external_urls.clone(),
            href: self.href.clone(),
            id: self.id.clone(),
            is_playable: self.is_playable,
            linked_from,
            restrictions,
            name: self.name.clone(),
            popularity: self.popularity,
            preview_url: clone_opt_string(&self.preview_url),
            track_number: self.track_number,
            type_field: self.type_field.clone(),
            uri: self.uri.clone(),
            is_local: self.is_local,
        }
    }
}

/// `Track::clone` keeps the deep view, stated for use at `Vec<Track>` copies.
pub proof fn lemma_track_clone_deep()
    ensures
        clone_preserves_deep::<Track>(),
{
}

#[derive(Debug, PartialEq)]
pub struct TopTracks {
    pub tracks: Vec<Track>,
}

pub ghost struct TopTracksView {
    pub tracks: Seq<TrackView>,
}

impl DeepView for TopTracks {
    type V = TopTracksView;

    open spec fn deep_view(&self) -> TopTracksView {
        TopTracksView { tracks: self.tracks.deep_view() }
    }
}

impl Clone for TopTracks {
    fn clone(&self) -> (r: Self)
        ensures
            r.deep_view() == self.deep_view(),
    {
        proof {
            lemma_track_clone_deep();
        }
        TopTracks { tracks: clone_vec_deep(&self.tracks) }
    }
}

} // verus!
