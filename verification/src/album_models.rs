//! Album and photo records as the album endpoints exchange them.

use vstd::prelude::*;

verus! {

#[derive(Debug, Clone)]
pub struct Album {
    pub id: i32,
    pub title: String,
    pub description: String,
    pub tags: Vec<String>,
    pub image_number: i32,
    pub tagged_number: i32,
    pub users_id: i32,
    pub first_photo: String,
}

#[derive(Debug, Clone)]
pub struct CreateAlbum {
    pub title: String,
    pub description: String,
    pub tags: Vec<String>,
}

#[derive(Debug, Clone)]
pub struct UpdateAlbum {
    pub title: String,
    pub description: String,
}

#[derive(Debug, Clone)]
pub struct AlbumTag {
    pub tags_id: i32,
    pub albums_id: i32,
}

#[derive(Debug, Clone)]
pub struct Tag {
    pub tag: String,
}

#[derive(Debug, Clone)]
pub struct AlbumPreview {
    pub id: i32,
    pub title: String,
    pub description: String,
    pub first_photo: String,
}

#[derive(Debug, Clone)]
pub struct AlbumsPreview {
    pub albums: Vec<AlbumPreview>,
}

#[derive(Debug, Clone)]
pub struct PhotoPreview {
    pub id: i32,
    pub file_path: String,
}

#[derive(Debug, Clone)]
pub struct TagPhoto {
    pub tag: String,
    pub coordinates: String,
}

#[derive(Debug, Clone)]
pub struct VerifyPhoto {
    pub verified: bool,
}

#[derive(Debug, Clone)]
pub struct PhotoToTag {
    pub id: i32,
    pub file_path: String,
    pub tagged: bool,
}

} // verus!
