//! The pure rules of the store layer. The SQL itself runs with the
//! surrounding program; what is computed or decided from the rows is here.

use vstd::prelude::*;
use vstd::string::StringSliceAdditionalSpecFns;
use vstd::utf8::encode_utf8;
use crate::album_models::{AlbumPreview, AlbumsPreview, PhotoPreview};
use crate::errors::DBError;
use crate::pwhash::argon_verify_of;
use crate::user_models::CreateUser;

verus! {

/// What the fuzzy matcher scores a title against a search pattern; `None`
/// when the pattern does not match at all.
pub uninterp spec fn fuzzy_score_of(choice: Seq<char>, pattern: Seq<char>) -> Option<i64>;

/// Relies on fuzzy-matcher's `SkimMatcherV2::default()` and
/// `FuzzyMatcher::fuzzy_match`: under the default configuration the score
/// depends on the two strings alone.
#[verifier::external_body]
fn fuzzy_score(choice: &str, pattern: &str) -> (r: Option<i64>)
    ensures
        r == fuzzy_score_of(choice@, pattern@),
{
    fuzzy_matcher::FuzzyMatcher::fuzzy_match(
        &fuzzy_matcher::skim::SkimMatcherV2::default(),
        choice,
        pattern,
    )
}

/// Whether an album belongs in the search result for a pattern.
pub open spec fn search_matches(a: AlbumPreview, pattern: Seq<char>) -> bool {
    fuzzy_score_of(a.title@, pattern) is Some
}

fn clone_album(a: &AlbumPreview) -> (r: AlbumPreview)
    ensures
        r == *a,
{
    AlbumPreview {
        id: a.id,
        title: a.title.clone(),
        description: a.description.clone(),
        first_photo: a.first_photo.clone(),
    }
}

fn clone_photo(p: &PhotoPreview) -> (r: PhotoPreview)
    ensures
        r == *p,
{
    PhotoPreview { id: p.id, file_path: p.file_path.clone() }
}

/// The albums whose title the fuzzy matcher accepts for the search pattern,
/// in their stored order.
pub fn get_searched_albums(albums: &Vec<AlbumPreview>, search_after: &String) -> (r: AlbumsPreview)
    ensures
        r.albums@ == albums@.filter(|a: AlbumPreview| search_matches(a, search_after@)),
{
    let ghost pred = |a: AlbumPreview| search_matches(a, search_after@);
    let mut out: Vec<AlbumPreview> = Vec::new();
    let n = albums.len();
    let mut i: usize = 0;
    proof {
        reveal(Seq::filter);
        assert(albums@.take(0int).filter(pred) =~= Seq::<AlbumPreview>::empty());
    }
    while i < n
        invariant
            i <= n,
            n == albums@.len(),
            out@ == albums@.take(i as int).filter(pred),
            pred == (|a: AlbumPreview| search_matches(a, search_after@)),
        decreases n - i,
    {
        let matched = fuzzy_score(albums[i].title.as_str(), search_after.as_str()).is_some();
        proof {
            reveal(Seq::filter);
            assert(albums@.take(i + 1).drop_last() =~= albums@.take(i as int));
            assert(albums@.take(i + 1).last() == albums@[i as int]);
        }
        if matched {
            out.push(clone_album(&albums[i]));
        }
        i = i + 1;
    }
    assert(albums@.take(n as int) =~= albums@);
    AlbumsPreview { albums: out }
}

/// Whether a photo's tagging lock, taken at `locked_at`, is still open at
/// `now`: tagging and verification are only accepted within the lock window.
/// The window length is explicit configuration, not a constant of this rule.
pub fn photo_lock_open(locked_at: i64, lock_timeout: i64, now: i64) -> (r: bool)
    requires
        i64::MIN <= locked_at + lock_timeout <= i64::MAX,
    ensures
        r == (locked_at + lock_timeout > now),
{
    locked_at + lock_timeout > now
}

/// One preview page of an album's photos: twenty per page, the pages in
/// stored order, short or empty at the end.
pub fn photos_page(photos: &Vec<PhotoPreview>, index: i32) -> (r: Vec<PhotoPreview>)
    requires
        0 <= index,
        index * 20 + 20 <= i32::MAX,
    ensures
        ({
            let len = photos@.len() as int;
            let start = if index * 20 <= len {
                index * 20
            } else {
                len
            };
            let end = if index * 20 + 20 <= len {
                index * 20 + 20
            } else {
                len
            };
            r@ == photos@.subrange(start, end)
        }),
{
    let n = photos.len();
    let start_pos: usize = (index as usize) * 20;
    let start = if start_pos <= n {
        start_pos
    } else {
        n
    };
    let end = if start_pos + 20 <= n {
        start_pos + 20
    } else {
        n
    };
    let mut out: Vec<PhotoPreview> = Vec::new();
    let mut i: usize = start;
    while i < end
        invariant
            start <= i <= end <= n,
            n == photos@.len(),
            out@ == photos@.subrange(start as int, i as int),
        decreases end - i,
    {
        out.push(clone_photo(&photos[i]));
        assert(out@ =~= photos@.subrange(start as int, i + 1));
        i = i + 1;
    }
    out
}

/// The password rule of user creation and password update: under four bytes
/// is refused, anything else is stored as its hash under a fresh salt.
pub fn hash_new_user_password(user: &CreateUser) -> (r: Result<String, DBError>)
    ensures
        encode_utf8(user.password@).len() < 4 ==> (r matches Err(e) && (e matches
            DBError::BadArgs { err } && err@ == "Password is too short"@)),
        encode_utf8(user.password@).len() >= 4 ==> match r {
            Ok(h) => argon_verify_of(h@, encode_utf8(user.password@)) == Some(true),
            Err(e) => e is ArgonError,
        },
{
    let pw_bytes = user.password.as_str().as_bytes();
    assert(pw_bytes@ == encode_utf8(user.password@));
    if pw_bytes.len() < 4 {
        return Err(DBError::BadArgs { err: "Password is too short".to_owned() });
    }
    match crate::user_models::Hash::get_hashed_password(user) {
        Ok(h) => Ok(h),
        Err(_) => Err(DBError::ArgonError("password hashing failed".to_owned())),
    }
}

} // verus!
