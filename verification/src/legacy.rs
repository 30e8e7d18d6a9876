//! The first version of the service: error pages, serving and uploading
//! under `static/uploads/`.
use vstd::prelude::*;

use image::io::Reader;
use image::{ColorType, GenericImageView, ImageFormat};
use std::io::Cursor;

use crate::convert::{image_values, ConversionError, DecodedImage, ImageLayout};

use crate::paths::{
    has_extension, join_path, path_has_extension, path_join, path_with_extension,
    path_with_file_name, with_extension, with_file_name,
};
use crate::routes::{is_message_reply, Reply, ReplyBody};
use crate::text::{strip_all, strip_all_exec};

verus! {

/// An HTML error page.
#[derive(Debug, PartialEq, Eq, Structural)]
pub enum ErrorPage {
    NotFound,
    InternalError,
}

impl ErrorPage {
    /// The file, next to the routes, that holds the page.
    pub fn file(&self) -> (f: String)
        ensures
            f@ == match self {
                ErrorPage::NotFound => "error_pages/404.html"@,
                ErrorPage::InternalError => "error_pages/500.html"@,
            },
    {
        match self {
            ErrorPage::NotFound => String::from_str("error_pages/404.html"),
            ErrorPage::InternalError => String::from_str("error_pages/500.html"),
        }
    }
}

/// Answer for status 404: the not-found page.
pub fn not_found() -> (p: ErrorPage)
    ensures
        p == ErrorPage::NotFound,
{
    ErrorPage::NotFound
}

/// Answer for status 500: the internal-error page.
pub fn internal_error() -> (p: ErrorPage)
    ensures
        p == ErrorPage::InternalError,
{
    ErrorPage::InternalError
}

/// Answer for any other error status: `Something went wrong: <status> (<uri>)`.
pub fn default(status: &str, uri: &str) -> (m: String)
    ensures
        m@ == "Something went wrong: "@ + status@ + " ("@ + uri@ + ")"@,
{
    let mut m = String::from_str("Something went wrong: ");
    m.append(status);
    m.append(" (");
    m.append(uri);
    m.append(")");
    m
}

/// The file served for a request of `requested`: `static/uploads/` joined with
/// it, with the extension `webp` when it has none.
pub fn file(requested: &str) -> (p: String)
    ensures
        ({
            let base = path_join("static/uploads/"@, requested@);
            p@ == if path_has_extension(base) {
                base
            } else {
                path_with_extension(base, "webp"@)
            }
        }),
{
    proof {
        reveal_strlit("webp");
    }
    let base = join_path("static/uploads/", requested);
    if has_extension(base.as_str()) {
        base
    } else {
        with_extension(base.as_str(), "webp")
    }
}

/// Where an upload is kept before conversion: `/tmp/<name>.png`.
pub fn temp_upload_path(name: &str) -> (p: String)
    ensures
        p@ == "/tmp/"@ + name@ + ".png"@,
{
    let mut p = String::from_str("/tmp/");
    p.append(name);
    p.append(".png");
    p
}

/// Where a converted upload named `name` is written: `static/uploads/`
/// joined with it, or, when that file exists, the same directory with the
/// fresh name `fresh`.
pub fn webp_target(name: &str, exists: bool, fresh: &str) -> (p: String)
    ensures
        ({
            let first = path_join("static/uploads/"@, name@);
            p@ == if exists {
                path_with_file_name(first, fresh@)
            } else {
                first
            }
        }),
{
    let first = join_path("static/uploads/", name);
    if exists {
        with_file_name(first.as_str(), fresh)
    } else {
        first
    }
}

/// The name reported for a converted upload: its file name with every
/// `.webp` removed.
pub fn stored_name(file_name: &str) -> (n: String)
    ensures
        n@ == strip_all(file_name@, ".webp"@),
{
    strip_all_exec(file_name, ".webp")
}

/// Where a converted upload is written and the name reported for it: the
/// target is `webp_target(first, exists, fresh)`, and the name is that of the
/// file written there (the fresh one when the first was taken) with every
/// `.webp` removed, so that the reported link serves the file written.
pub fn webp_destination(first: &str, exists: bool, fresh: &str) -> (r: (String, String))
    ensures
        r.0@ == (if exists {
            path_with_file_name(path_join("static/uploads/"@, first@), fresh@)
        } else {
            path_join("static/uploads/"@, first@)
        }),
        r.1@ == strip_all(if exists { fresh@ } else { first@ }, ".webp"@),
{
    let target = webp_target(first, exists, fresh);
    let name = if exists {
        stored_name(fresh)
    } else {
        stored_name(first)
    };
    (target, name)
}

/// What `image` decodes from these bytes read as a PNG: the layout, size and
/// pixel bytes, or `None` when decoding fails.
pub uninterp spec fn png_decoding(bytes: Seq<u8>) -> Option<(ImageLayout, u32, u32, Seq<u8>)>;

/// `Reader::with_format(Cursor::new(bytes), ImageFormat::Png).decode()`, the
/// image given by its `color()`, `width()`, `height()` and `into_bytes()`.
#[verifier::external_body]
fn load_png(bytes: &[u8]) -> (r: Option<DecodedImage>)
    ensures
        match r {
            Some(d) => png_decoding(bytes@) == Some(image_values(d)),
            None => png_decoding(bytes@) is None,
        },
{
    let img = Reader::with_format(Cursor::new(bytes), ImageFormat::Png).decode().ok()?;
    let layout = match img.color() {
        ColorType::L8 => ImageLayout::Luma8,
        ColorType::La8 => ImageLayout::LumaA8,
        ColorType::Rgb8 => ImageLayout::Rgb8,
        ColorType::Rgba8 => ImageLayout::Rgba8,
        _ => ImageLayout::Other,
    };
    Some(DecodedImage { layout, width: img.width(), height: img.height(), pixels: img.into_bytes() })
}

/// Decodes an upload of the first site, which is kept as a `.png` file:
/// the image that `image` decodes as PNG, or a decoder error.
pub fn legacy_decode(bytes: &[u8]) -> (r: Result<DecodedImage, ConversionError>)
    ensures
        r is Ok <==> png_decoding(bytes@) is Some,
        r matches Ok(d) ==> png_decoding(bytes@) == Some(image_values(d)),
        r is Err ==> r == Err::<DecodedImage, ConversionError>(ConversionError::Decoder),
{
    match load_png(bytes) {
        Some(d) => Ok(d),
        None => Err(ConversionError::Decoder),
    }
}

/// Answer to an upload: with the name of the converted file, 200 and its
/// URL `http://localhost:8000/i/<name>`; without, 500 and
/// `failed to upload image`.
pub fn upload(converted: Option<&str>) -> (r: Reply)
    ensures
        match converted {
            Some(name) => r.status == 200 && (r.body matches ReplyBody::Url(u)
                && u@ == "http://localhost:8000/i/"@ + name@),
            None => is_message_reply(r, 500, "failed to upload image"@),
        },
{
    match converted {
        Some(name) => {
            let mut url = String::from_str("http://localhost:8000/i/");
            url.append(name);
            Reply { status: 200, body: ReplyBody::Url(url) }
        },
        None => Reply {
            status: 500,
            body: ReplyBody::Message(String::from_str("failed to upload image")),
        },
    }
}

} // verus!
