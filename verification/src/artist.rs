use vstd::prelude::*;
use vstd::string::{StrSliceExecFns, StringExecFns};

use crate::cache::{Cache, has_key, lookup, put, model_wf};
use crate::cache::{lemma_lookup_props, lemma_put_preserves_wf, lemma_put_then_get};
use crate::records::{Albums, AlbumsView, Artist, ArtistView, Artists, ArtistsView, TopTracks,
    TopTracksView};

verus! {

/// The single fetch intent configured before execution.
#[derive(Debug, Clone, Copy, PartialEq, Eq, Structural)]
pub enum RequestMode {
    Artist,
    Artists,
    Albums,
    TopTracks,
    RelatedArtists,
}

/// The wire shape a response body is expected to carry for the active mode.
#[derive(Debug, Clone, Copy, PartialEq, Eq, Structural)]
pub enum WireShape {
    OneArtist,
    ManyArtists,
    AlbumPage,
    TrackList,
}

#[derive(Debug, Clone, Copy, PartialEq, Eq, Structural)]
pub enum ArtistErrors {
    ArtistNotFound,
    InvalidArguments,
    ReqwestError,
}

#[derive(Debug, PartialEq)]
pub enum BodyValues {
    Str(String),
    Int(i32),
}

pub ghost enum BodyValuesView {
    Str(Seq<char>),
    Int(i32),
}

impl DeepView for BodyValues {
    type V = BodyValuesView;

    open spec fn deep_view(&self) -> BodyValuesView {
        match self {
            BodyValues::Str(s) => BodyValuesView::Str(s@),
            BodyValues::Int(i) => BodyValuesView::Int(*i),
        }
    }
}

impl Clone for BodyValues {
    fn clone(&self) -> (r: Self)
        ensures
            r.deep_view() == self.deep_view(),
    {
        match self {
            BodyValues::Str(s) => BodyValues::Str(s.clone()),
            BodyValues::Int(i) => BodyValues::Int(*i),
        }
    }
}

/// The unit returned to the caller and stored in the cache.
#[derive(Debug, PartialEq)]
pub enum ArtistResult {
    Artist(Artist),
    Artists(Artists),
    Albums(Albums),
    TopTracks(TopTracks),
    RelatedArtists(Artists),
    Null,
    Error(ArtistErrors),
}

pub ghost enum ArtistResultView {
    Artist(ArtistView),
    Artists(ArtistsView),
    Albums(AlbumsView),
    TopTracks(TopTracksView),
    RelatedArtists(ArtistsView),
    Null,
    Error(ArtistErrors),
}

impl DeepView for ArtistResult {
    type V = ArtistResultView;

    open spec fn deep_view(&self) -> ArtistResultView {
        match self {
            ArtistResult::Artist(a) => ArtistResultView::Artist(a.deep_view()),
            ArtistResult::Artists(a) => ArtistResultView::Artists(a.deep_view()),
            ArtistResult::Albums(a) => ArtistResultView::Albums(a.deep_view()),
            ArtistResult::TopTracks(t) => ArtistResultView::TopTracks(t.deep_view()),
            ArtistResult::RelatedArtists(a) => ArtistResultView::RelatedArtists(a.deep_view()),
            ArtistResult::Null => ArtistResultView::Null,
            ArtistResult::Error(e) => ArtistResultView::Error(*e),
        }
    }
}

impl Clone for ArtistResult {
    fn clone(&self) -> (r: Self)
        ensures
            r.deep_view() == self.deep_view(),
    {
        match self {
            ArtistResult::Artist(a) => ArtistResult::Artist(a.clone()),
            ArtistResult::Artists(a) => ArtistResult::Artists(a.clone()),
            ArtistResult::Albums(a) => ArtistResult::Albums(a.clone()),
            ArtistResult::TopTracks(t) => ArtistResult::TopTracks(t.clone()),
            ArtistResult::RelatedArtists(a) => ArtistResult::RelatedArtists(a.clone()),
            ArtistResult::Null => ArtistResult::Null,
            ArtistResult::Error(e) => ArtistResult::Error(*e),
        }
    }
}

/// Joins the parts with the separator between neighbours.
pub open spec fn join_with(parts: Seq<Seq<char>>, sep: Seq<char>) -> Seq<char>
    decreases parts.len(),
{
    if parts.len() == 0 {
        Seq::empty()
    } else if parts.len() == 1 {
        parts[0]
    } else {
        parts[0] + sep + join_with(parts.drop_first(), sep)
    }
}

proof fn lemma_join_push(parts: Seq<Seq<char>>, sep: Seq<char>, x: Seq<char>)
    ensures
        parts.len() == 0 ==> join_with(parts.push(x), sep) == x,
        parts.len() >= 1 ==> join_with(parts.push(x), sep) == join_with(parts, sep) + sep + x,
    decreases parts.len(),
{
    let p = parts.push(x);
    if parts.len() == 0 {
        assert(p[0] == x);
    } else {
        assert(p.drop_first() =~= parts.drop_first().push(x));
        lemma_join_push(parts.drop_first(), sep, x);
        if parts.len() == 1 {
            assert(join_with(p, sep) == p[0] + sep + join_with(p.drop_first(), sep));
            assert(join_with(p.drop_first(), sep) == x);
        } else {
            assert(join_with(p, sep) == p[0] + sep + (join_with(parts.drop_first(), sep) + sep
                + x));
            assert(p[0] + sep + (join_with(parts.drop_first(), sep) + sep + x) =~= (parts[0] + sep
                + join_with(parts.drop_first(), sep)) + sep + x);
        }
    }
}

/// Joins string slices with the separator between neighbours.
pub fn join_strs(parts: &[&str], sep: &str) -> (r: String)
    ensures
        r@ == join_with(parts.deep_view(), sep@),
{
    let mut s = String::new();
    let n = parts.len();
    let mut i: usize = 0;
    while i < n
        invariant
            i <= n,
            n == parts@.len(),
            parts.deep_view().len() == n,
            s@ == join_with(parts.deep_view().take(i as int), sep@),
        decreases n - i,
    {
        if i > 0 {
            s.append(sep);
        }
        s.append(parts[i]);
        proof {
            let dv = parts.deep_view();
            assert(dv.take(i as int).push(dv[i as int]) =~= dv.take(i + 1 as int));
            lemma_join_push(dv.take(i as int), sep@, dv[i as int]);
        }
        i = i + 1;
    }
    proof {
        assert(parts.deep_view().take(n as int) =~= parts.deep_view());
    }
    s
}

/// The characters of `s` with every occurrence of `c` removed.
pub open spec fn remove_char(s: Seq<char>, c: char) -> Seq<char>
    decreases s.len(),
{
    if s.len() == 0 {
        Seq::empty()
    } else {
        remove_char(s.drop_last(), c) + if s.last() == c {
            Seq::<char>::empty()
        } else {
            seq![s.last()]
        }
    }
}

fn strip_char(s: &str, c: char) -> (r: String)
    ensures
        r@ == remove_char(s@, c),
{
    let n = s.unicode_len();
    let mut out = String::new();
    let mut i: usize = 0;
    while i < n
        invariant
            i <= n,
            n == s@.len(),
            out@ == remove_char(s@.take(i as int), c),
        decreases n - i,
    {
        let ch = s.get_char(i);
        if ch != c {
            let piece = s.substring_char(i, i + 1);
            out.append(piece);
            proof {
                assert(piece@ =~= seq![s@[i as int]]);
            }
        }
        proof {
            assert(s@.take(i + 1 as int).drop_last() =~= s@.take(i as int));
            assert(s@.take(i + 1 as int).last() == s@[i as int]);
        }
        i = i + 1;
    }
    proof {
        assert(s@.take(n as int) =~= s@);
    }
    out
}

/// True when the identifier can serve as part of a single-artist store key:
/// it holds no path separator.
pub open spec fn cacheable_id(id: Seq<char>) -> bool {
    forall|j: int| 0 <= j < id.len() ==> id[j] != '/'
}

/// True of exactly the keys the store may hold: a single leading separator
/// followed by a separator-free identifier.
pub open spec fn is_artist_key(k: Seq<char>) -> bool {
    &&& k.len() >= 1
    &&& k[0] == '/'
    &&& forall|j: int| 1 <= j < k.len() ==> k[j] != '/'
}

pub open spec fn artist_path(id: Seq<char>) -> Seq<char> {
    "/"@ + id
}

pub open spec fn albums_path(id: Seq<char>) -> Seq<char> {
    artist_path(id) + "/albums"@
}

pub open spec fn top_tracks_path(id: Seq<char>) -> Seq<char> {
    artist_path(id) + "/top-tracks"@
}

pub open spec fn related_artists_path(id: Seq<char>) -> Seq<char> {
    artist_path(id) + "/related-artists"@
}

/// The batch request suffix: identifiers joined into one encoded parameter.
pub open spec fn ids_query(ids: Seq<Seq<char>>) -> Seq<char> {
    "?ids="@ + join_with(ids, "%2C"@)
}

pub open spec fn base_url() -> Seq<char> {
    "https://api.spotify.com/v1/artists"@
}

/// The authorization header value: the bearer prefix and the token with
/// backslashes and double quotes removed.
pub open spec fn auth_header_view(token: Seq<char>) -> Seq<char> {
    "Bearer "@ + remove_char(remove_char(token, '\\'), '"')
}

fn make_artist_path(id: &str) -> (r: String)
    ensures
        r@ == artist_path(id@),
{
    let mut s = String::from_str("/");
    s.append(id);
    s
}

fn make_suffixed_path(id: &str, suffix: &str) -> (r: String)
    ensures
        r@ == artist_path(id@) + suffix@,
{
    let mut s = String::from_str("/");
    s.append(id);
    s.append(suffix);
    s
}

fn is_artist_key_exec(s: &str) -> (r: bool)
    ensures
        r == is_artist_key(s@),
{
    let n = s.unicode_len();
    if n == 0 {
        return false;
    }
    if s.get_char(0) != '/' {
        return false;
    }
    let mut j: usize = 1;
    while j < n
        invariant
            1 <= j <= n,
            n == s@.len(),
            s@[0] == '/',
            forall|t: int| 1 <= t < j ==> s@[t] != '/',
        decreases n - j,
    {
        if s.get_char(j) == '/' {
            return false;
        }
        j = j + 1;
    }
    true
}

/// The query parameters carried by an album listing request, in the order
/// they are attached: release-type filter, market, page size, page start —
/// each present only when the caller supplied it.
pub open spec fn albums_params(
    groups: Option<Seq<Seq<char>>>,
    market: Option<Seq<char>>,
    limit: Option<i32>,
    offset: Option<i32>,
) -> Seq<(Seq<char>, BodyValuesView)> {
    (match groups {
        Some(g) => seq![("include_groups"@, BodyValuesView::Str(join_with(g, ","@)))],
        None => Seq::empty(),
    }) + (match market {
        Some(m) => seq![("market"@, BodyValuesView::Str(m))],
        None => Seq::empty(),
    }) + (match limit {
        Some(l) => seq![("limit"@, BodyValuesView::Int(l))],
        None => Seq::empty(),
    }) + (match offset {
        Some(o) => seq![("offset"@, BodyValuesView::Int(o))],
        None => Seq::empty(),
    })
}

/// Orchestrates one catalog fetch: holds the configured mode, the request
/// path and query parameters, and a bounded read-through cache of
/// single-artist results.
pub struct ArtistData {
    pub userid: String,
    cache: Cache<ArtistResult>,
    token: String,
    body: Vec<(String, BodyValues)>,
    pub artistid: String,
    mode: Option<RequestMode>,
    page_limit: usize,
}

/// Every store entry is a single-artist result under its own lookup key.
pub open spec fn cache_entries_ok(m: Seq<(Seq<char>, ArtistResultView)>) -> bool {
    forall|i: int|
        0 <= i < m.len() ==> is_artist_key(#[trigger] m[i].0) && m[i].1 is Artist
}

impl ArtistData {
    pub closed spec fn spec_cache(self) -> Seq<(Seq<char>, ArtistResultView)> {
        self.cache.model()
    }

    pub closed spec fn spec_cap(self) -> int {
        self.cache.spec_capacity()
    }

    pub closed spec fn cache_ok(self) -> bool {
        self.cache.wf()
    }

    pub closed spec fn spec_token(self) -> Seq<char> {
        self.token@
    }

    pub closed spec fn spec_body(self) -> Seq<(Seq<char>, BodyValuesView)> {
        self.body.deep_view()
    }

    pub closed spec fn spec_mode(self) -> Option<RequestMode> {
        self.mode
    }

    pub closed spec fn spec_userid(self) -> Seq<char> {
        self.userid@
    }

    pub closed spec fn spec_artistid(self) -> Seq<char> {
        self.artistid@
    }

    pub closed spec fn spec_page_limit(self) -> int {
        self.page_limit as int
    }

    pub open spec fn wf(self) -> bool {
        &&& self.cache_ok()
        &&& cache_entries_ok(self.spec_cache())
    }

    /// The configuration that a classification never touches.
    pub open spec fn same_config(self, other: ArtistData) -> bool {
        &&& other.spec_userid() == self.spec_userid()
        &&& other.spec_artistid() == self.spec_artistid()
        &&& other.spec_token() == self.spec_token()
        &&& other.spec_body() == self.spec_body()
        &&& other.spec_page_limit() == self.spec_page_limit()
        &&& other.spec_cap() == self.spec_cap()
    }

    /// The cache and the bearer token do not change.
    pub open spec fn same_session(self, other: ArtistData) -> bool {
        &&& other.spec_cache() == self.spec_cache()
        &&& other.spec_cap() == self.spec_cap()
        &&& other.cache_ok() == self.cache_ok()
        &&& other.spec_token() == self.spec_token()
        &&& other.spec_userid() == self.spec_userid()
        &&& other.spec_page_limit() == self.spec_page_limit()
    }

    pub fn new(userid: String, token: String) -> (r: ArtistData)
        ensures
            r.wf(),
            r.spec_cache() == Seq::<(Seq<char>, ArtistResultView)>::empty(),
            r.spec_cap() == 10,
            r.spec_mode() is None,
            r.spec_body() == Seq::<(Seq<char>, BodyValuesView)>::empty(),
            r.spec_artistid() == Seq::<char>::empty(),
            r.spec_userid() == userid@,
            r.spec_token() == token@,
            r.spec_page_limit() == 1,
    {
        let r = ArtistData {
            userid,
            cache: Cache::new(),
            token,
            body: Vec::new(),
            artistid: String::new(),
            mode: None,
            page_limit: 1,
        };
        proof {
            assert(r.spec_body() =~= Seq::<(Seq<char>, BodyValuesView)>::empty());
        }
        r
    }

    /// How many continuation pages one album fetch may follow.
    pub fn set_page_limit(&mut self, pages: usize)
        ensures
            final(self).spec_page_limit() == pages as int,
            final(self).spec_mode() == old(self).spec_mode(),
            final(self).spec_cache() == old(self).spec_cache(),
            final(self).spec_cap() == old(self).spec_cap(),
            final(self).cache_ok() == old(self).cache_ok(),
            final(self).spec_token() == old(self).spec_token(),
            final(self).spec_body() == old(self).spec_body(),
            final(self).spec_artistid() == old(self).spec_artistid(),
            final(self).spec_userid() == old(self).spec_userid(),
    {
        self.page_limit = pages;
    }

    /// Configures a single-artist lookup.
    pub fn get_artist(&mut self, artistid: &str)
        ensures
            final(self).spec_mode() == Some(RequestMode::Artist),
            final(self).spec_artistid() == artist_path(artistid@),
            final(self).spec_body() == Seq::<(Seq<char>, BodyValuesView)>::empty(),
            final(self).same_session(*old(self)),
    {
        self.mode = Some(RequestMode::Artist);
        self.artistid = make_artist_path(artistid);
        self.body = Vec::new();
        proof {
            assert(self.spec_body() =~= Seq::<(Seq<char>, BodyValuesView)>::empty());
        }
    }

    /// Configures a batch lookup. A batch bypasses the cache on read, but a
    /// completed batch still warms it (see `classify`).
    pub fn get_artists(&mut self, ids: &[&str])
        ensures
            final(self).spec_mode() == Some(RequestMode::Artists),
            final(self).spec_artistid() == ids_query(ids.deep_view()),
            final(self).spec_body() == Seq::<(Seq<char>, BodyValuesView)>::empty(),
            final(self).same_session(*old(self)),
    {
        self.mode = Some(RequestMode::Artists);
        let mut s = String::from_str("?ids=");
        let joined = join_strs(ids, "%2C");
        s.append(joined.as_str());
        self.artistid = s;
        self.body = Vec::new();
        proof {
            assert(self.spec_body() =~= Seq::<(Seq<char>, BodyValuesView)>::empty());
        }
    }

    /// Configures an album listing, with its optional release-type filter,
    /// market, page size and page start.
    pub fn get_albums(
        &mut self,
        artistid: &str,
        groups: Option<Vec<&str>>,
        market: Option<&str>,
        limit: Option<i32>,
        offset: Option<i32>,
    )
        ensures
            final(self).spec_mode() == Some(RequestMode::Albums),
            final(self).spec_artistid() == albums_path(artistid@),
            final(self).spec_body() == albums_params(
                groups.deep_view(),
                market.deep_view(),
                limit,
                offset,
            ),
            final(self).same_session(*old(self)),
    {
        self.mode = Some(RequestMode::Albums);
        self.artistid = make_suffixed_path(artistid, "/albums");
        self.body = Vec::new();
        match &groups {
            Some(g) => {
                let joined = join_strs(g.as_slice(), ",");
                self.body.push((String::from_str("include_groups"), BodyValues::Str(joined)));
            },
            None => {},
        }
        match market {
            Some(m) => {
                self.body.push((String::from_str("market"), BodyValues::Str(String::from_str(m))));
            },
            None => {},
        }
        match limit {
            Some(l) => {
                self.body.push((String::from_str("limit"), BodyValues::Int(l)));
            },
            None => {},
        }
        match offset {
            Some(o) => {
                self.body.push((String::from_str("offset"), BodyValues::Int(o)));
            },
            None => {},
        }
        proof {
            assert(self.spec_body() =~= albums_params(
                groups.deep_view(),
                market.deep_view(),
                limit,
                offset,
            ));
        }
    }

    /// Configures a top-tracks lookup; here the market is required.
    pub fn get_top_tracks(&mut self, artistid: &str, market: &str)
        ensures
            final(self).spec_mode() == Some(RequestMode::TopTracks),
            final(self).spec_artistid() == top_tracks_path(artistid@),
            final(self).spec_body() == seq![("market"@, BodyValuesView::Str(market@))],
            final(self).same_session(*old(self)),
    {
        self.mode = Some(RequestMode::TopTracks);
        self.artistid = make_suffixed_path(artistid, "/top-tracks");
        self.body = Vec::new();
        self.body.push((String::from_str("market"), BodyValues::Str(String::from_str(market))));
        proof {
            assert(self.spec_body() =~= seq![("market"@, BodyValuesView::Str(market@))]);
        }
    }

    /// Configures a related-artists lookup.
    pub fn get_related_artists(&mut self, artistid: &str)
        ensures
            final(self).spec_mode() == Some(RequestMode::RelatedArtists),
            final(self).spec_artistid() == related_artists_path(artistid@),
            final(self).spec_body() == Seq::<(Seq<char>, BodyValuesView)>::empty(),
            final(self).same_session(*old(self)),
    {
        self.mode = Some(RequestMode::RelatedArtists);
        self.artistid = make_suffixed_path(artistid, "/related-artists");
        self.body = Vec::new();
        proof {
            assert(self.spec_body() =~= Seq::<(Seq<char>, BodyValuesView)>::empty());
        }
    }

    /// The full request target for the configured fetch.
    pub fn request_url(&self) -> (r: String)
        ensures
            r@ == base_url() + self.spec_artistid(),
    {
        let mut s = String::from_str("https://api.spotify.com/v1/artists");
        s.append(self.artistid.as_str());
        s
    }

    /// The authorization header value for the configured session.
    pub fn auth_header(&self) -> (r: String)
        ensures
            r@ == auth_header_view(self.spec_token()),
    {
        let no_backslash = strip_char(self.token.as_str(), '\\');
        let stripped = strip_char(no_backslash.as_str(), '"');
        let mut s = String::from_str("Bearer ");
        s.append(stripped.as_str());
        s
    }

    /// The query parameters to attach to the outbound request.
    pub fn query_params(&self) -> (r: &Vec<(String, BodyValues)>)
        ensures
            r.deep_view() == self.spec_body(),
    {
        &self.body
    }
}

/// One logical page after merging: the item sequences concatenated in fetch
/// order, the totals summed, and the continuation link of the later page.
pub open spec fn concat_pages(a: AlbumsView, b: AlbumsView) -> AlbumsView {
    AlbumsView {
        href: a.href,
        limit: a.limit,
        next: b.next,
        offset: a.offset,
        previous: a.previous,
        total: (a.total + b.total) as i32,
        items: a.items + b.items,
    }
}

impl Albums {
    /// Merges a continuation page into this one: items are concatenated in
    /// fetch order, totals are added, and the later page's continuation link
    /// is kept.
    pub fn concatenate(self, other: Albums) -> (r: Albums)
        requires
            i32::MIN <= self.total + other.total <= i32::MAX,
        ensures
            r.deep_view() == concat_pages(self.deep_view(), other.deep_view()),
    {
        let mut a = self;
        let mut b = other;
        a.items.append(&mut b.items);
        a.total = a.total + b.total;
        a.next = b.next;
        proof {
            assert(a.deep_view().items =~= concat_pages(self.deep_view(), other.deep_view()).items);
        }
        a
    }
}

impl ArtistResult {
    /// True when every listed artist carries a popularity figure; only then
    /// can the figures be collected.
    pub open spec fn popularitys_wf(self) -> bool {
        match self.deep_view() {
            ArtistResultView::Artists(a) => forall|i: int|
                0 <= i < a.artists.len() ==> (#[trigger] a.artists[i].popularity) is Some,
            ArtistResultView::RelatedArtists(a) => forall|i: int|
                0 <= i < a.artists.len() ==> (#[trigger] a.artists[i].popularity) is Some,
            _ => false,
        }
    }

    pub open spec fn spec_artist_list(self) -> Seq<ArtistView>
        recommends
            self.deep_view() is Artists || self.deep_view() is RelatedArtists,
    {
        match self.deep_view() {
            ArtistResultView::Artists(a) => a.artists,
            ArtistResultView::RelatedArtists(a) => a.artists,
            _ => Seq::empty(),
        }
    }

    pub open spec fn spec_single(self) -> ArtistView
        recommends
            self.deep_view() is Artist,
    {
        match self.deep_view() {
            ArtistResultView::Artist(a) => a,
            _ => vstd::pervasive::arbitrary(),
        }
    }

    /// The name of a single-artist result.
    pub fn name(&self) -> (r: String)
        requires
            self.deep_view() is Artist,
        ensures
            r@ == self.spec_single().name,
    {
        match self {
            ArtistResult::Artist(a) => a.name.clone(),
            _ => vstd::pervasive::unreached(),
        }
    }

    /// The identifier of a single-artist result.
    pub fn id(&self) -> (r: String)
        requires
            self.deep_view() is Artist,
        ensures
            r@ == self.spec_single().id,
    {
        match self {
            ArtistResult::Artist(a) => a.id.clone(),
            _ => vstd::pervasive::unreached(),
        }
    }

    /// The popularity figure of a single-artist result, where one is given.
    pub fn popularity(&self) -> (r: i32)
        requires
            self.deep_view() is Artist,
            self.spec_single().popularity is Some,
        ensures
            Some(r) == self.spec_single().popularity,
    {
        match self {
            ArtistResult::Artist(a) => match &a.popularity {
                Some(p) => *p,
                None => vstd::pervasive::unreached(),
            },
            _ => vstd::pervasive::unreached(),
        }
    }

    /// The name of each listed artist, in listing order.
    pub fn names(&self) -> (r: Vec<String>)
        requires
            self.deep_view() is Artists || self.deep_view() is RelatedArtists,
        ensures
            r.deep_view().len() == self.spec_artist_list().len(),
            forall|i: int|
                0 <= i < r.deep_view().len() ==> r.deep_view()[i] == (
                #[trigger] self.spec_artist_list()[i]).name,
    {
        let list: &Vec<Artist> = match self {
            ArtistResult::Artists(a) => &a.artists,
            ArtistResult::RelatedArtists(a) => &a.artists,
            _ => vstd::pervasive::unreached(),
        };
        let mut out: Vec<String> = Vec::new();
        let n = list.len();
        let mut i: usize = 0;
        while i < n
            invariant
                i <= n,
                n == list@.len(),
                list.deep_view() == self.spec_artist_list(),
                out@.len() == i,
                forall|j: int|
                    0 <= j < i ==> out.deep_view()[j] == (
                    #[trigger] self.spec_artist_list()[j]).name,
            decreases n - i,
        {
            out.push(list[i].name.clone());
            i = i + 1;
        }
        out
    }

    /// The identifier of each listed artist, in listing order.
    pub fn ids(&self) -> (r: Vec<String>)
        requires
            self.deep_view() is Artists || self.deep_view() is RelatedArtists,
        ensures
            r.deep_view().len() == self.spec_artist_list().len(),
            forall|i: int|
                0 <= i < r.deep_view().len() ==> r.deep_view()[i] == (
                #[trigger] self.spec_artist_list()[i]).id,
    {
        let list: &Vec<Artist> = match self {
            ArtistResult::Artists(a) => &a.artists,
            ArtistResult::RelatedArtists(a) => &a.artists,
            _ => vstd::pervasive::unreached(),
        };
        let mut out: Vec<String> = Vec::new();
        let n = list.len();
        let mut i: usize = 0;
        while i < n
            invariant
                i <= n,
                n == list@.len(),
                list.deep_view() == self.spec_artist_list(),
                out@.len() == i,
                forall|j: int|
                    0 <= j < i ==> out.deep_view()[j] == (
                    #[trigger] self.spec_artist_list()[j]).id,
            decreases n - i,
        {
            out.push(list[i].id.clone());
            i = i + 1;
        }
        out
    }

    /// The popularity figure of each listed artist, in listing order.
    pub fn popularitys(&self) -> (r: Vec<i32>)
        requires
            self.popularitys_wf(),
        ensures
            r@.len() == self.spec_artist_list().len(),
            forall|i: int|
                0 <= i < r@.len() ==> r@[i] == (#[trigger] self.spec_artist_list()[i]).popularity.unwrap(),
    {
        let list: &Vec<Artist> = match self {
            ArtistResult::Artists(a) => &a.artists,
            ArtistResult::RelatedArtists(a) => &a.artists,
            _ => {
                proof {
                    assert(false);
                }
                vstd::pervasive::unreached()
            },
        };
        let mut out: Vec<i32> = Vec::new();
        let n = list.len();
        let mut i: usize = 0;
        while i < n
            invariant
                i <= n,
                n == list@.len(),
                list.deep_view() == self.spec_artist_list(),
                self.popularitys_wf(),
                out@.len() == i,
                forall|j: int|
                    0 <= j < i ==> out@[j] == (#[trigger] self.spec_artist_list()[j]).popularity.unwrap(),
        decreases n - i,
        {
            let p = match &list[i].popularity {
                Some(p) => *p,
                None => {
                    proof {
                        assert(list.deep_view()[i as int].popularity is Some);
                        assert(false);
                    }
                    0
                },
            };
            out.push(p);
            i = i + 1;
        }
        out
    }
}

fn no_slash(s: &str) -> (r: bool)
    ensures
        r == cacheable_id(s@),
{
    let n = s.unicode_len();
    let mut j: usize = 0;
    while j < n
        invariant
            j <= n,
            n == s@.len(),
            forall|t: int| 0 <= t < j ==> s@[t] != '/',
        decreases n - j,
    {
        if s.get_char(j) == '/' {
            return false;
        }
        j = j + 1;
    }
    true
}

/// A single-artist path is a store key exactly when the identifier holds no
/// path separator.
pub proof fn lemma_artist_path_key(id: Seq<char>)
    ensures
        is_artist_key(artist_path(id)) <==> cacheable_id(id),
{
    reveal_strlit("/");
    let k = artist_path(id);
    assert(k.len() == 1 + id.len());
    assert(k[0] == '/');
    assert(forall|j: int| 1 <= j < k.len() ==> k[j] == id[j - 1]);
    if cacheable_id(id) {
        assert(is_artist_key(k));
    }
    if is_artist_key(k) {
        assert forall|j: int| 0 <= j < id.len() implies id[j] != '/' by {
            assert(k[j + 1] == id[j]);
        }
    }
}

/// Two distinct identifiers give two distinct store keys.
pub proof fn lemma_artist_path_injective(x: Seq<char>, y: Seq<char>)
    requires
        artist_path(x) == artist_path(y),
    ensures
        x == y,
{
    reveal_strlit("/");
    assert(artist_path(x).len() == 1 + x.len());
    assert(forall|j: int| 0 <= j < x.len() ==> artist_path(x)[j + 1] == x[j]);
    assert(forall|j: int| 0 <= j < y.len() ==> artist_path(y)[j + 1] == y[j]);
    assert(x =~= y);
}

/// The album, top-tracks, related-artists and batch suffixes are never
/// single-artist store keys, whatever the identifiers: so those modes can
/// never be answered from the cache, which holds only single-artist entries.
pub proof fn lemma_mode_keys_not_cached(id: Seq<char>, ids: Seq<Seq<char>>)
    ensures
        !is_artist_key(albums_path(id)),
        !is_artist_key(top_tracks_path(id)),
        !is_artist_key(related_artists_path(id)),
        !is_artist_key(ids_query(ids)),
{
    reveal_strlit("/");
    reveal_strlit("/albums");
    reveal_strlit("/top-tracks");
    reveal_strlit("/related-artists");
    reveal_strlit("?ids=");
    let p: int = 1 + id.len() as int;
    assert(albums_path(id)[p] == "/albums"@[0]);
    assert(top_tracks_path(id)[p] == "/top-tracks"@[0]);
    assert(related_artists_path(id)[p] == "/related-artists"@[0]);
    assert(ids_query(ids)[0] == "?ids="@[0]);
}

/// A key that is not a single-artist store key is never present in a store
/// whose entries are all single-artist entries.
pub proof fn lemma_non_artist_key_miss(m: Seq<(Seq<char>, ArtistResultView)>, k: Seq<char>)
    requires
        cache_entries_ok(m),
        !is_artist_key(k),
    ensures
        !has_key(m, k),
{
    lemma_lookup_props(m, k);
    if has_key(m, k) {
        let i = crate::cache::index_of_key(m, k);
        assert(is_artist_key(m[i].0));
    }
}

/// A `put` of a single-artist entry keeps every entry a single-artist entry.
pub proof fn lemma_put_entries_ok(
    m: Seq<(Seq<char>, ArtistResultView)>,
    cap: int,
    k: Seq<char>,
    v: ArtistResultView,
)
    requires
        cache_entries_ok(m),
        is_artist_key(k),
        v is Artist,
        cap >= 1,
    ensures
        cache_entries_ok(put(m, cap, k, v)),
{
    lemma_lookup_props(m, k);
    let r = put(m, cap, k, v);
    assert forall|i: int| 0 <= i < r.len() implies is_artist_key(#[trigger] r[i].0) && r[i].1
        is Artist by {
        if has_key(m, k) {
            let x = crate::cache::index_of_key(m, k);
            if i != x {
                assert(r[i] == m[i]);
            }
        } else if m.len() < cap {
            if i < m.len() {
                assert(r[i] == m[i]);
            }
        } else {
            assert(m.len() >= cap >= 1);
            if i < r.len() - 1 {
                assert(r[i] == m.drop_first()[i]);
                assert(m.drop_first()[i] == m[i + 1]);
            } else {
                assert(r[i] == (k, v));
            }
        }
    }
}

/// The store after a batch response: one `put` per listed artist, in listing
/// order, under the artist's own key — skipping identifiers that cannot form
/// a key.
pub open spec fn populate(
    m: Seq<(Seq<char>, ArtistResultView)>,
    cap: int,
    artists: Seq<ArtistView>,
) -> Seq<(Seq<char>, ArtistResultView)>
    decreases artists.len(),
{
    if artists.len() == 0 {
        m
    } else {
        let m1 = if cacheable_id(artists[0].id) {
            put(m, cap, artist_path(artists[0].id), ArtistResultView::Artist(artists[0]))
        } else {
            m
        };
        populate(m1, cap, artists.drop_first())
    }
}

proof fn lemma_populate_push(
    m: Seq<(Seq<char>, ArtistResultView)>,
    cap: int,
    artists: Seq<ArtistView>,
    a: ArtistView,
)
    ensures
        populate(m, cap, artists.push(a)) == (if cacheable_id(a.id) {
            put(populate(m, cap, artists), cap, artist_path(a.id), ArtistResultView::Artist(a))
        } else {
            populate(m, cap, artists)
        }),
    decreases artists.len(),
{
    let p = artists.push(a);
    if artists.len() == 0 {
        assert(p[0] == a);
        assert(p.drop_first() =~= Seq::<ArtistView>::empty());
        let m1 = if cacheable_id(a.id) {
            put(m, cap, artist_path(a.id), ArtistResultView::Artist(a))
        } else {
            m
        };
        assert(populate(m, cap, p) == populate(m1, cap, p.drop_first()));
        assert(populate(m1, cap, p.drop_first()) == m1);
        assert(populate(m, cap, artists) == m);
    } else {
        assert(p[0] == artists[0]);
        assert(p.drop_first() =~= artists.drop_first().push(a));
        let m1 = if cacheable_id(artists[0].id) {
            put(m, cap, artist_path(artists[0].id), ArtistResultView::Artist(artists[0]))
        } else {
            m
        };
        assert(populate(m, cap, p) == populate(m1, cap, p.drop_first()));
        assert(populate(m, cap, artists) == populate(m1, cap, artists.drop_first()));
        lemma_populate_push(m1, cap, artists.drop_first(), a);
    }
}

proof fn lemma_populate_wf(m: Seq<(Seq<char>, ArtistResultView)>, cap: int, artists: Seq<ArtistView>)
    requires
        model_wf(m, cap),
        cap >= 1,
        cache_entries_ok(m),
    ensures
        model_wf(populate(m, cap, artists), cap),
        cache_entries_ok(populate(m, cap, artists)),
    decreases artists.len(),
{
    if artists.len() > 0 {
        let a0 = artists[0];
        let m1 = if cacheable_id(a0.id) {
            put(m, cap, artist_path(a0.id), ArtistResultView::Artist(a0))
        } else {
            m
        };
        if cacheable_id(a0.id) {
            lemma_artist_path_key(a0.id);
            lemma_put_preserves_wf(m, cap, artist_path(a0.id), ArtistResultView::Artist(a0));
            lemma_put_entries_ok(m, cap, artist_path(a0.id), ArtistResultView::Artist(a0));
        }
        lemma_populate_wf(m1, cap, artists.drop_first());
    }
}

/// The wire shape that each mode's response body is parsed as.
pub open spec fn shape_of(m: RequestMode) -> WireShape {
    match m {
        RequestMode::Artist => WireShape::OneArtist,
        RequestMode::Artists => WireShape::ManyArtists,
        RequestMode::Albums => WireShape::AlbumPage,
        RequestMode::TopTracks => WireShape::TrackList,
        RequestMode::RelatedArtists => WireShape::ManyArtists,
    }
}

/// A mode only ever yields its own result variant, or an error.
pub open spec fn mode_allows(m: RequestMode, v: ArtistResultView) -> bool {
    match m {
        RequestMode::Artist => v is Artist || v is Error,
        RequestMode::Artists => v is Artists || v is Error,
        RequestMode::Albums => v is Albums || v is Error,
        RequestMode::TopTracks => v is TopTracks || v is Error,
        RequestMode::RelatedArtists => v is RelatedArtists || v is Error,
    }
}

/// What the first step of an execution decides: answer from the cache (or
/// refuse an unconfigured call), or go to the network for the given shape.
#[derive(Debug, PartialEq)]
pub enum StartOutcome {
    Done(ArtistResult),
    Fetch(WireShape),
}

/// A raw response after the transport: a not-found status, a body that did
/// not decode as the expected shape, or the decoded body.
#[derive(Debug, PartialEq)]
pub enum ResponseBody {
    NotFoundStatus,
    Malformed,
    OneArtistBody(Artist),
    ManyArtistsBody(Artists),
    AlbumPageBody(Albums),
    TrackListBody(TopTracks),
}

/// A pagination continuation: the link to fetch, the pages merged so far,
/// and how many more continuation fetches are allowed.
#[derive(Debug, PartialEq)]
pub struct FollowState {
    pub url: String,
    pub acc: Albums,
    pub budget: usize,
}

/// What a classification decides: a final result, or one more continuation
/// page to fetch.
#[derive(Debug, PartialEq)]
pub enum ClassifyStep {
    Done(ArtistResult),
    Follow(FollowState),
}

impl ArtistData {
    /// The first step of an execution: a key present in the cache answers
    /// immediately with the stored copy and no transport call; an
    /// unconfigured call is a caller error; otherwise the configured fetch
    /// goes out, to be parsed with the mode's shape.
    pub fn start(&self) -> (r: StartOutcome)
        ensures
            has_key(self.spec_cache(), self.spec_artistid()) ==> (r matches StartOutcome::Done(v)
                && Some(v.deep_view()) == lookup(self.spec_cache(), self.spec_artistid())),
            self.wf() && has_key(self.spec_cache(), self.spec_artistid()) ==> (r matches
                StartOutcome::Done(v) && v.deep_view() is Artist && is_artist_key(
                self.spec_artistid(),
            )),
            !has_key(self.spec_cache(), self.spec_artistid()) && self.spec_mode() is None ==> r
                == StartOutcome::Done(ArtistResult::Error(ArtistErrors::InvalidArguments)),
            !has_key(self.spec_cache(), self.spec_artistid()) ==> (self.spec_mode() matches Some(
                m,
            ) ==> r == StartOutcome::Fetch(shape_of(m))),
    {
        match self.cache.get(self.artistid.as_str()) {
            Some(v) => {
                proof {
                    if self.wf() {
                        lemma_lookup_props(self.spec_cache(), self.spec_artistid());
                        let i = crate::cache::index_of_key(
                            self.spec_cache(),
                            self.spec_artistid(),
                        );
                        assert(self.spec_cache()[i].1 is Artist);
                    }
                }
                StartOutcome::Done(v.clone())
            },
            None => match self.mode {
                None => StartOutcome::Done(ArtistResult::Error(ArtistErrors::InvalidArguments)),
                Some(RequestMode::Artist) => StartOutcome::Fetch(WireShape::OneArtist),
                Some(RequestMode::Artists) => StartOutcome::Fetch(WireShape::ManyArtists),
                Some(RequestMode::Albums) => StartOutcome::Fetch(WireShape::AlbumPage),
                Some(RequestMode::TopTracks) => StartOutcome::Fetch(WireShape::TrackList),
                Some(RequestMode::RelatedArtists) => StartOutcome::Fetch(WireShape::ManyArtists),
            },
        }
    }

    /// Classifies a raw response under the active mode. A not-found status
    /// maps to the not-found error whatever the mode, and nothing is cached.
    /// Otherwise the mode is consumed; the expected body yields the mode's
    /// own result variant; any other body yields the decode error. A
    /// single-artist result is cached under the request key; a batch
    /// response warms the cache with one entry per listed artist under that
    /// artist's own key; no other branch touches the cache.
    pub fn classify(&mut self, response: ResponseBody) -> (r: ClassifyStep)
        requires
            old(self).wf(),
        ensures
            final(self).wf(),
            final(self).same_config(*old(self)),
            response is NotFoundStatus ==> r == ClassifyStep::Done(
                ArtistResult::Error(ArtistErrors::ArtistNotFound),
            ) && final(self).spec_cache() == old(self).spec_cache() && final(self).spec_mode()
                == old(self).spec_mode(),
            !(response is NotFoundStatus) ==> final(self).spec_mode() is None,
            !(response is NotFoundStatus) && old(self).spec_mode() is None ==> r
                == ClassifyStep::Done(ArtistResult::Error(ArtistErrors::InvalidArguments)) && final(self).spec_cache() == old(self).spec_cache(),
            !(response is NotFoundStatus) && old(self).spec_mode() == Some(RequestMode::Artist)
                ==> (match response {
                ResponseBody::OneArtistBody(a) => (r matches ClassifyStep::Done(v)
                    && v.deep_view() == ArtistResultView::Artist(a.deep_view())) && final(self).spec_cache() == (if is_artist_key(old(self).spec_artistid()) {
                    put(
                        old(self).spec_cache(),
                        old(self).spec_cap(),
                        old(self).spec_artistid(),
                        ArtistResultView::Artist(a.deep_view()),
                    )
                } else {
                    old(self).spec_cache()
                }),
                _ => r == ClassifyStep::Done(ArtistResult::Error(ArtistErrors::ReqwestError))
                    && final(self).spec_cache() == old(self).spec_cache(),
            }),
            !(response is NotFoundStatus) && old(self).spec_mode() == Some(RequestMode::Artists)
                ==> (match response {
                ResponseBody::ManyArtistsBody(list) => (r matches ClassifyStep::Done(v)
                    && v.deep_view() == ArtistResultView::Artists(list.deep_view())) && final(self).spec_cache() == populate(
                    old(self).spec_cache(),
                    old(self).spec_cap(),
                    list.deep_view().artists,
                ),
                _ => r == ClassifyStep::Done(ArtistResult::Error(ArtistErrors::ReqwestError))
                    && final(self).spec_cache() == old(self).spec_cache(),
            }),
            !(response is NotFoundStatus) && old(self).spec_mode() == Some(RequestMode::Albums)
                ==> final(self).spec_cache() == old(self).spec_cache() && (match response {
                ResponseBody::AlbumPageBody(p) => if p.deep_view().next is Some && old(self).spec_page_limit() >= 1 {
                    r matches ClassifyStep::Follow(st) && st.acc.deep_view() == p.deep_view()
                        && Some(st.url@) == p.deep_view().next && st.budget as int == old(self).spec_page_limit()
                } else {
                    r matches ClassifyStep::Done(v) && v.deep_view() == ArtistResultView::Albums(
                        p.deep_view(),
                    )
                },
                _ => r == ClassifyStep::Done(ArtistResult::Error(ArtistErrors::ReqwestError)),
            }),
            !(response is NotFoundStatus) && old(self).spec_mode() == Some(RequestMode::TopTracks)
                ==> final(self).spec_cache() == old(self).spec_cache() && (match response {
                ResponseBody::TrackListBody(t) => r matches ClassifyStep::Done(v) && v.deep_view()
                    == ArtistResultView::TopTracks(t.deep_view()),
                _ => r == ClassifyStep::Done(ArtistResult::Error(ArtistErrors::ReqwestError)),
            }),
            !(response is NotFoundStatus) && old(self).spec_mode() == Some(
                RequestMode::RelatedArtists,
            ) ==> final(self).spec_cache() == old(self).spec_cache() && (match response {
                ResponseBody::ManyArtistsBody(list) => r matches ClassifyStep::Done(v)
                    && v.deep_view() == ArtistResultView::RelatedArtists(list.deep_view()),
                _ => r == ClassifyStep::Done(ArtistResult::Error(ArtistErrors::ReqwestError)),
            }),
            old(self).spec_mode() matches Some(m) ==> (r matches ClassifyStep::Done(v)
                ==> mode_allows(m, v.deep_view())),
            r matches ClassifyStep::Follow(_) ==> old(self).spec_mode() == Some(
                RequestMode::Albums,
            ),
    {
        if matches!(response, ResponseBody::NotFoundStatus) {
            return ClassifyStep::Done(ArtistResult::Error(ArtistErrors::ArtistNotFound));
        }
        let m = self.mode;
        self.mode = None;
        match m {
            None => ClassifyStep::Done(ArtistResult::Error(ArtistErrors::InvalidArguments)),
            Some(RequestMode::Artist) => match response {
                ResponseBody::OneArtistBody(a) => {
                    if is_artist_key_exec(self.artistid.as_str()) {
                        let v = ArtistResult::Artist(a.clone());
                        let ghost c0 = self.cache.model();
                        self.cache.add(self.artistid.as_str(), v);
                        proof {
                            lemma_put_entries_ok(
                                c0,
                                self.cache.spec_capacity(),
                                self.spec_artistid(),
                                ArtistResultView::Artist(a.deep_view()),
                            );
                        }
                    }
                    ClassifyStep::Done(ArtistResult::Artist(a))
                },
                _ => ClassifyStep::Done(ArtistResult::Error(ArtistErrors::ReqwestError)),
            },
            Some(RequestMode::Artists) => match response {
                ResponseBody::ManyArtistsBody(list) => {
                    let ghost c0 = self.cache.model();
                    let ghost cap = self.cache.spec_capacity();
                    let n = list.artists.len();
                    let mut i: usize = 0;
                    while i < n
                        invariant
                            i <= n,
                            n == list.artists.len(),
                            list.deep_view().artists.len() == n,
                            self.cache.spec_capacity() == cap,
                            cap >= 1,
                            self.cache.wf(),
                            cache_entries_ok(self.cache.model()),
                            self.cache.model() == populate(
                                c0,
                                cap,
                                list.deep_view().artists.take(i as int),
                            ),
                            self.same_config(*old(self)),
                            self.spec_mode() is None,
                        decreases n - i,
                    {
                        let ghost pre = self.cache.model();
                        let art = &list.artists[i];
                        if no_slash(art.id.as_str()) {
                            let key = make_artist_path(art.id.as_str());
                            let v = ArtistResult::Artist(art.clone());
                            self.cache.add(key.as_str(), v);
                            proof {
                                lemma_artist_path_key(art.id@);
                                lemma_put_entries_ok(
                                    pre,
                                    cap,
                                    artist_path(art.id@),
                                    ArtistResultView::Artist(art.deep_view()),
                                );
                            }
                        }
                        proof {
                            let dv = list.deep_view().artists;
                            assert(dv[i as int] == list.artists[i as int].deep_view());
                            lemma_populate_push(c0, cap, dv.take(i as int), dv[i as int]);
                            assert(dv.take(i as int).push(dv[i as int]) =~= dv.take(i + 1 as int));
                        }
                        i = i + 1;
                    }
                    proof {
                        assert(list.deep_view().artists.take(n as int) =~= list.deep_view().artists);
                    }
                    ClassifyStep::Done(ArtistResult::Artists(list))
                },
                _ => ClassifyStep::Done(ArtistResult::Error(ArtistErrors::ReqwestError)),
            },
            Some(RequestMode::Albums) => match response {
                ResponseBody::AlbumPageBody(p) => {
                    if self.page_limit >= 1 {
                        match crate::records::clone_opt_string(&p.next) {
                            Some(url) => ClassifyStep::Follow(
                                FollowState { url, acc: p, budget: self.page_limit },
                            ),
                            None => ClassifyStep::Done(ArtistResult::Albums(p)),
                        }
                    } else {
                        ClassifyStep::Done(ArtistResult::Albums(p))
                    }
                },
                _ => ClassifyStep::Done(ArtistResult::Error(ArtistErrors::ReqwestError)),
            },
            Some(RequestMode::TopTracks) => match response {
                ResponseBody::TrackListBody(t) => ClassifyStep::Done(ArtistResult::TopTracks(t)),
                _ => ClassifyStep::Done(ArtistResult::Error(ArtistErrors::ReqwestError)),
            },
            Some(RequestMode::RelatedArtists) => match response {
                ResponseBody::ManyArtistsBody(list) => ClassifyStep::Done(
                    ArtistResult::RelatedArtists(list),
                ),
                _ => ClassifyStep::Done(ArtistResult::Error(ArtistErrors::ReqwestError)),
            },
        }
    }
}

/// Merges one fetched continuation page into the follow state. A body that
/// is not an album page aborts the merge with the decode error, discarding
/// the pages merged so far. Otherwise the pages are merged; if the merged
/// page still names a continuation and the budget allows another fetch, the
/// follow goes on with the budget reduced by one, else the merged page is
/// the final result.
pub fn merge_next(st: FollowState, response: ResponseBody) -> (r: ClassifyStep)
    requires
        response matches ResponseBody::AlbumPageBody(p) ==> i32::MIN <= st.acc.deep_view().total
            + p.deep_view().total <= i32::MAX,
    ensures
        match response {
            ResponseBody::AlbumPageBody(p) => {
                let merged = concat_pages(st.acc.deep_view(), p.deep_view());
                if merged.next is Some && st.budget >= 2 {
                    r matches ClassifyStep::Follow(st2) && st2.acc.deep_view() == merged && Some(
                        st2.url@,
                    ) == merged.next && st2.budget as int == st.budget - 1
                } else {
                    r matches ClassifyStep::Done(v) && v.deep_view() == ArtistResultView::Albums(
                        merged,
                    )
                }
            },
            _ => r == ClassifyStep::Done(ArtistResult::Error(ArtistErrors::ReqwestError)),
        },
{
    match response {
        ResponseBody::AlbumPageBody(p) => {
            let budget = st.budget;
            let merged = st.acc.concatenate(p);
            if budget >= 2 {
                match crate::records::clone_opt_string(&merged.next) {
                    Some(url) => ClassifyStep::Follow(
                        FollowState { url, acc: merged, budget: budget - 1 },
                    ),
                    None => ClassifyStep::Done(ArtistResult::Albums(merged)),
                }
            } else {
                ClassifyStep::Done(ArtistResult::Albums(merged))
            }
        },
        _ => ClassifyStep::Done(ArtistResult::Error(ArtistErrors::ReqwestError)),
    }
}

/// Mode isolation at the read-through step: a well-formed orchestrator whose
/// lookup key is an album, top-tracks, related-artists or batch key can never
/// be answered from the store, because the store holds only single-artist
/// keys. With `start` and `classify`, an album configuration can thus never
/// yield a track list or a single artist, and so on for each mode.
pub proof fn lemma_configured_modes_miss(d: ArtistData, id: Seq<char>, ids: Seq<Seq<char>>)
    requires
        d.wf(),
    ensures
        d.spec_artistid() == albums_path(id) ==> !has_key(d.spec_cache(), d.spec_artistid()),
        d.spec_artistid() == top_tracks_path(id) ==> !has_key(d.spec_cache(), d.spec_artistid()),
        d.spec_artistid() == related_artists_path(id) ==> !has_key(
            d.spec_cache(),
            d.spec_artistid(),
        ),
        d.spec_artistid() == ids_query(ids) ==> !has_key(d.spec_cache(), d.spec_artistid()),
{
    lemma_mode_keys_not_cached(id, ids);
    if d.spec_artistid() == albums_path(id) {
        lemma_non_artist_key_miss(d.spec_cache(), d.spec_artistid());
    }
    if d.spec_artistid() == top_tracks_path(id) {
        lemma_non_artist_key_miss(d.spec_cache(), d.spec_artistid());
    }
    if d.spec_artistid() == related_artists_path(id) {
        lemma_non_artist_key_miss(d.spec_cache(), d.spec_artistid());
    }
    if d.spec_artistid() == ids_query(ids) {
        lemma_non_artist_key_miss(d.spec_cache(), d.spec_artistid());
    }
}

/// A single-artist result just stored is found again under the same key: a
/// second identical lookup is answered from the store, with no transport
/// call.
pub proof fn lemma_read_through(
    m: Seq<(Seq<char>, ArtistResultView)>,
    cap: int,
    id: Seq<char>,
    a: ArtistView,
)
    requires
        model_wf(m, cap),
        cap >= 1,
    ensures
        has_key(put(m, cap, artist_path(id), ArtistResultView::Artist(a)), artist_path(id)),
        lookup(put(m, cap, artist_path(id), ArtistResultView::Artist(a)), artist_path(id)) == Some(
            ArtistResultView::Artist(a),
        ),
{
    lemma_put_then_get(m, cap, artist_path(id), ArtistResultView::Artist(a));
}

proof fn lemma_lookup_update_other<V>(m: Seq<(Seq<char>, V)>, i: int, e: (Seq<char>, V), k2: Seq<char>)
    requires
        0 <= i < m.len(),
        e.0 != k2,
        m[i].0 != k2,
    ensures
        lookup(m.update(i, e), k2) == lookup(m, k2),
    decreases m.len(),
{
    let r = m.update(i, e);
    if i == 0 {
        assert(r[0] == e);
        assert(r.drop_first() =~= m.drop_first());
    } else {
        assert(r[0] == m[0]);
        assert(r.drop_first() =~= m.drop_first().update(i - 1, e));
        if m[0].0 != k2 {
            lemma_lookup_update_other(m.drop_first(), i - 1, e, k2);
        }
    }
}

proof fn lemma_lookup_push_other<V>(m: Seq<(Seq<char>, V)>, e: (Seq<char>, V), k2: Seq<char>)
    requires
        e.0 != k2,
    ensures
        lookup(m.push(e), k2) == lookup(m, k2),
    decreases m.len(),
{
    let r = m.push(e);
    if m.len() == 0 {
        assert(r[0] == e);
        assert(r.drop_first() =~= Seq::<(Seq<char>, V)>::empty());
    } else {
        assert(r[0] == m[0]);
        assert(r.drop_first() =~= m.drop_first().push(e));
        if m[0].0 != k2 {
            lemma_lookup_push_other(m.drop_first(), e, k2);
        }
    }
}

/// While the store has room, a `put` under one key leaves every other key's
/// lookup unchanged.
pub proof fn lemma_put_other<V>(m: Seq<(Seq<char>, V)>, cap: int, k: Seq<char>, v: V, k2: Seq<char>)
    requires
        k2 != k,
        has_key(m, k) || m.len() < cap,
    ensures
        lookup(put(m, cap, k, v), k2) == lookup(m, k2),
{
    lemma_lookup_props(m, k);
    if has_key(m, k) {
        let i = crate::cache::index_of_key(m, k);
        lemma_lookup_update_other(m, i, (k, v), k2);
    } else {
        lemma_lookup_push_other(m, (k, v), k2);
    }
}

proof fn lemma_populate_preserves(
    m: Seq<(Seq<char>, ArtistResultView)>,
    cap: int,
    artists: Seq<ArtistView>,
    k2: Seq<char>,
)
    requires
        m.len() + artists.len() <= cap,
        forall|i: int| 0 <= i < artists.len() ==> artist_path(#[trigger] artists[i].id) != k2,
    ensures
        lookup(populate(m, cap, artists), k2) == lookup(m, k2),
        populate(m, cap, artists).len() <= m.len() + artists.len(),
    decreases artists.len(),
{
    if artists.len() > 0 {
        let a0 = artists[0];
        let m1 = if cacheable_id(a0.id) {
            put(m, cap, artist_path(a0.id), ArtistResultView::Artist(a0))
        } else {
            m
        };
        if cacheable_id(a0.id) {
            lemma_lookup_props(m, artist_path(a0.id));
            lemma_put_other(m, cap, artist_path(a0.id), ArtistResultView::Artist(a0), k2);
        }
        lemma_populate_preserves(m1, cap, artists.drop_first(), k2);
    }
}

/// After a batch response for distinct identifiers completes, and while no
/// eviction can occur, every listed artist is found in the store under its
/// own key: later single lookups for any of them are answered without a
/// transport call.
pub proof fn lemma_cross_population(
    m: Seq<(Seq<char>, ArtistResultView)>,
    cap: int,
    artists: Seq<ArtistView>,
)
    requires
        model_wf(m, cap),
        cap >= 1,
        m.len() + artists.len() <= cap,
        forall|i: int| 0 <= i < artists.len() ==> cacheable_id(#[trigger] artists[i].id),
        forall|i: int, j: int|
            0 <= i < j < artists.len() ==> artists[i].id != artists[j].id,
    ensures
        forall|i: int|
            0 <= i < artists.len() ==> lookup(
                populate(m, cap, artists),
                artist_path(#[trigger] artists[i].id),
            ) == Some(ArtistResultView::Artist(artists[i])),
    decreases artists.len(),
{
    if artists.len() > 0 {
        let a0 = artists[0];
        let k0 = artist_path(a0.id);
        let v0 = ArtistResultView::Artist(a0);
        let m1 = put(m, cap, k0, v0);
        let rest = artists.drop_first();
        lemma_put_then_get(m, cap, k0, v0);
        lemma_put_preserves_wf(m, cap, k0, v0);
        lemma_lookup_props(m, k0);
        assert(m1.len() <= m.len() + 1);
        assert forall|i: int| 0 <= i < rest.len() implies artist_path(#[trigger] rest[i].id)
            != k0 by {
            assert(rest[i] == artists[i + 1]);
            if artist_path(rest[i].id) == k0 {
                lemma_artist_path_injective(rest[i].id, a0.id);
            }
        }
        lemma_populate_preserves(m1, cap, rest, k0);
        lemma_cross_population(m1, cap, rest);
        assert(populate(m, cap, artists) == populate(m1, cap, rest));
        assert forall|i: int|
            0 <= i < artists.len() implies lookup(
            populate(m, cap, artists),
            artist_path(#[trigger] artists[i].id),
        ) == Some(ArtistResultView::Artist(artists[i])) by {
            if i == 0 {
                assert(lookup(populate(m1, cap, rest), k0) == lookup(m1, k0));
            } else {
                assert(rest[i - 1] == artists[i]);
            }
        }
    }
}

} // verus!
