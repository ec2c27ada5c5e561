use vstd::prelude::*;

verus! {

#[derive(Debug, PartialEq)]
pub struct Urls {
    pub spotify: String,
}

pub ghost struct UrlsView {
    pub spotify: Seq<char>,
}

impl DeepView for Urls {
    type V = UrlsView;

    open spec fn deep_view(&self) -> UrlsView {
        UrlsView { spotify: self.spotify@ }
    }
}

impl Clone for Urls {
    fn clone(&self) -> (r: Self)
        ensures
            r.deep_view() == self.deep_view(),
    {
        Urls { spotify: self.spotify.clone() }
    }
}

#[derive(Debug, PartialEq)]
pub struct Follow {
    pub href: String,
    pub total: i32,
}

pub ghost struct FollowView {
    pub href: Seq<char>,
    pub total: i32,
}

impl DeepView for Follow {
    type V = FollowView;

    open spec fn deep_view(&self) -> FollowView {
        FollowView { href: self.href@, total: self.total }
    }
}

impl Clone for Follow {
    fn clone(&self) -> (r: Self)
        ensures
            r.deep_view() == self.deep_view(),
    {
        Follow { href: self.href.clone(), total: self.total }
    }
}

#[derive(Debug, PartialEq)]
pub struct Image {
    pub url: String,
    pub height: Option<i32>,
    pub width: Option<i32>,
}

pub ghost struct ImageView {
    pub url: Seq<char>,
    pub height: Option<i32>,
    pub width: Option<i32>,
}

impl DeepView for Image {
    type V = ImageView;

    open spec fn deep_view(&self) -> ImageView {
        ImageView { url: self.url@, height: self.height, width: self.width }
    }
}

impl Clone for Image {
    fn clone(&self) -> (r: Self)
        ensures
            r.deep_view() == self.deep_view(),
    {
        Image { url: self.url.clone(), height: self.height, width: self.width }
    }
}

#[derive(Debug, PartialEq)]
pub struct User {
    pub display_name: Option<String>,
    pub external_urls: Urls,
    pub followers: Follow,
    pub href: String,
    pub id: String,
    pub images: Image,
    pub product: String,
    pub utype: String,
    pub uri: String,
}

pub ghost struct UserView {
    pub display_name: Option<Seq<char>>,
    pub external_urls: UrlsView,
    pub followers: FollowView,
    pub href: Seq<char>,
    pub id: Seq<char>,
    pub images: ImageView,
    pub product: Seq<char>,
    pub utype: Seq<char>,
    pub uri: Seq<char>,
}

impl DeepView for User {
    type V = UserView;

    open spec fn deep_view(&self) -> UserView {
        UserView {
            display_name: self.display_name.deep_view(),
            external_urls: self.external_urls.deep_view(),
            followers: self.followers.deep_view(),
            href: self.href@,
            id: self.id@,
            images: self.images.deep_view(),
            product: self.product@,
            utype: self.utype@,
            uri: self.uri@,
        }
    }
}

impl Clone for User {
    fn clone(&self) -> (r: Self)
        ensures
            r.deep_view() == self.deep_view(),
    {
        User {
            display_name: crate::records::clone_opt_string(&self.display_name),
            external_urls: self.external_urls.clone(),
            followers: self.followers.clone(),
            href: self.href.clone(),
            id: self.id.clone(),
            images: self.images.clone(),
            product: self.product.clone(),
            utype: self.utype.clone(),
            uri: self.uri.clone(),
        }
    }
}

} // verus!
