//! Images and session cookies: what kind of image the service takes, where
//! an image is linked, and where a cookie keeps the session key.

use crate::text::{last_piece, piece, pieces};
use vstd::prelude::*;
use vstd::string::StringExecFns;

verus! {

/// The kinds of image that the service takes.
#[derive(Clone, Copy, Debug, PartialEq, Eq, Structural)]
pub enum ImageKind {
    Png,
    Jpeg,
}

impl ImageKind {
    /// The kind of image that an upload of the content type is: `image/png`
    /// or `image/jpeg`. Any other upload is left aside.
    pub open spec fn spec_of_content_type(content_type: Seq<char>) -> Option<ImageKind> {
        if content_type == "image/png"@ {
            Some(ImageKind::Png)
        } else if content_type == "image/jpeg"@ {
            Some(ImageKind::Jpeg)
        } else {
            None
        }
    }

    /// The kind of image that a file with the suffix holds: `png` or `jpg`.
    pub open spec fn spec_of_suffix(suffix: Seq<char>) -> Option<ImageKind> {
        if suffix == "png"@ {
            Some(ImageKind::Png)
        } else if suffix == "jpg"@ {
            Some(ImageKind::Jpeg)
        } else {
            None
        }
    }

    pub fn of_content_type(content_type: &str) -> (kind: Option<ImageKind>)
        ensures
            kind == Self::spec_of_content_type(content_type@),
    {
        let given = String::from_str(content_type);
        if given == String::from_str("image/png") {
            Some(ImageKind::Png)
        } else if given == String::from_str("image/jpeg") {
            Some(ImageKind::Jpeg)
        } else {
            None
        }
    }

    pub fn of_suffix(suffix: &str) -> (kind: Option<ImageKind>)
        ensures
            kind == Self::spec_of_suffix(suffix@),
    {
        let given = String::from_str(suffix);
        if given == String::from_str("png") {
            Some(ImageKind::Png)
        } else if given == String::from_str("jpg") {
            Some(ImageKind::Jpeg)
        } else {
            None
        }
    }

    /// The extension that is stored with an image of this kind.
    pub fn ext(self) -> (ext: String)
        ensures
            ext@ == (match self {
                ImageKind::Png => "PNG"@,
                ImageKind::Jpeg => "JPG"@,
            }),
    {
        match self {
            ImageKind::Png => String::from_str("PNG"),
            ImageKind::Jpeg => String::from_str("JPG"),
        }
    }

    /// The suffix of the file that holds an image of this kind.
    pub fn suffix(self) -> (suffix: String)
        ensures
            suffix@ == (match self {
                ImageKind::Png => "png"@,
                ImageKind::Jpeg => "jpg"@,
            }),
    {
        match self {
            ImageKind::Png => String::from_str("png"),
            ImageKind::Jpeg => String::from_str("jpg"),
        }
    }
}

/// The link under which the service hands out a stored image: the address of
/// the service, the route of images, and the name of the image, which is
/// what follows the last `/` of `stored`.
pub fn image_link(stored: &str) -> (link: String)
    ensures
        link@ == "http://localhost:3000"@ + "/get/image/"@ + pieces(stored@, '/').last(),
{
    let name = last_piece(stored, '/');
    String::from_str("http://localhost:3000").concat("/get/image/").concat(name.as_str())
}

/// The session key that a cookie header carries: what stands between the
/// first `=` and the next. A header without `=` carries none.
pub fn session_key(cookie: &str) -> (key: Option<String>)
    ensures
        key matches Some(text) ==> pieces(cookie@, '=').len() > 1 && text@ == pieces(
            cookie@,
            '=',
        )[1],
        key is None ==> pieces(cookie@, '=').len() <= 1,
{
    piece(cookie, '=', 1)
}

/// The suffix of a file path: what stands between the first `.` and the
/// next. A path without `.` has none.
pub fn file_suffix(path: &str) -> (suffix: Option<String>)
    ensures
        suffix matches Some(text) ==> pieces(path@, '.').len() > 1 && text@ == pieces(
            path@,
            '.',
        )[1],
        suffix is None ==> pieces(path@, '.').len() <= 1,
{
    piece(path, '.', 1)
}

} // verus!
