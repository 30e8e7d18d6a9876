//! Admission of uploaded files: what kind of file an upload is, judged by
//! its first bytes, and whether it fits the size limit.
use vstd::prelude::*;

use crate::text::str_eq;

verus! {

/// How many leading bytes of an upload are inspected to classify it.
pub const PEEK_LEN: usize = 39;

/// One mebibyte in bytes.
pub const MEBIBYTE: u64 = 1048576;

/// The upload limit used when the server configures none: 20 MiB.
pub const DEFAULT_UPLOAD_LIMIT: u64 = 20971520;

/// What `infer::is_image` answers for these bytes.
pub uninterp spec fn infer_is_image(buf: Seq<u8>) -> bool;

/// What `infer::is_video` answers for these bytes.
pub uninterp spec fn infer_is_video(buf: Seq<u8>) -> bool;

/// The MIME type of the first kind that `infer::get` matches for these bytes.
pub uninterp spec fn infer_mime(buf: Seq<u8>) -> Option<Seq<char>>;

/// `infer::is_image`: whether an image matcher of `infer` recognises the bytes.
#[verifier::external_body]
fn sniff_image(buf: &[u8]) -> (r: bool)
    ensures
        r == infer_is_image(buf@),
{
    infer::is_image(buf)
}

/// `infer::is_video`: whether a video matcher of `infer` recognises the bytes.
#[verifier::external_body]
fn sniff_video(buf: &[u8]) -> (r: bool)
    ensures
        r == infer_is_video(buf@),
{
    infer::is_video(buf)
}

/// `infer::get(buf).map(|t| t.mime_type())`: the MIME type of the first
/// matcher that recognises the bytes. In the source `get` searches all
/// matchers, image and video ones among them, so when it finds none neither
/// `is_image` nor `is_video` holds.
#[verifier::external_body]
fn sniff_mime(buf: &[u8]) -> (r: Option<&'static str>)
    ensures
        match r {
            Some(m) => infer_mime(buf@) == Some(m@),
            None => infer_mime(buf@) is None && !infer_is_image(buf@) && !infer_is_video(buf@),
        },
{
    infer::get(buf).map(|t| t.mime_type())
}

/// The kind of an accepted upload.
pub enum FileType<'a> {
    /// A still image.
    Image,
    /// A GIF animation.
    Gif,
    /// A video, with its MIME type.
    Video(&'a str),
}

/// The kind of an upload, as a value of the specification.
pub enum FileKind {
    Image,
    Gif,
    Video(Seq<char>),
}

impl<'a> FileType<'a> {
    pub open spec fn kind(&self) -> FileKind {
        match self {
            FileType::Image => FileKind::Image,
            FileType::Gif => FileKind::Gif,
            FileType::Video(m) => FileKind::Video(m@),
        }
    }
}

/// An accepted upload: its bytes and its kind.
pub struct FileData<'a> {
    pub data: &'a [u8],
    pub file_type: FileType<'a>,
}

/// Why an upload was refused.
#[derive(Debug, PartialEq, Eq, Structural)]
pub enum UploadRejection {
    /// The leading bytes look like neither an image nor a video.
    NeitherImageNorVideo,
    /// No MIME type could be found for the leading bytes.
    NoMimeType,
    /// The upload is longer than the limit.
    TooLarge,
}

impl UploadRejection {
    /// The validation message sent back for this refusal.
    pub fn message(&self) -> (m: String)
        ensures
            m@ == match self {
                UploadRejection::NeitherImageNorVideo => "upload is neither a video or an image"@,
                UploadRejection::NoMimeType => "could not extract mime type from file"@,
                UploadRejection::TooLarge => "file too large"@,
            },
    {
        match self {
            UploadRejection::NeitherImageNorVideo => String::from_str(
                "upload is neither a video or an image",
            ),
            UploadRejection::NoMimeType => String::from_str("could not extract mime type from file"),
            UploadRejection::TooLarge => String::from_str("file too large"),
        }
    }
}

/// The classification rule on what the sniffers report: neither image nor
/// video is refused; a missing MIME type is refused; an image whose MIME type
/// is `image/gif` is a GIF; otherwise a video is a video and an image an image.
pub open spec fn classify_spec(is_image: bool, is_video: bool, mime: Option<Seq<char>>) -> Result<
    FileKind,
    UploadRejection,
> {
    if !is_video && !is_image {
        Err(UploadRejection::NeitherImageNorVideo)
    } else {
        match mime {
            None => Err(UploadRejection::NoMimeType),
            Some(m) => if is_image && m == "image/gif"@ {
                Ok(FileKind::Gif)
            } else if is_video {
                Ok(FileKind::Video(m))
            } else {
                Ok(FileKind::Image)
            },
        }
    }
}

/// The characters of an optional MIME type.
pub open spec fn mime_view(mime: Option<&str>) -> Option<Seq<char>> {
    match mime {
        Some(m) => Some(m@),
        None => None,
    }
}

/// Classification of an upload from what the sniffers reported on its
/// leading bytes.
pub fn classify_sniffed(is_image: bool, is_video: bool, mime: Option<&'static str>) -> (r: Result<
    FileType<'static>,
    UploadRejection,
>)
    ensures
        match (r, classify_spec(is_image, is_video, mime_view(mime))) {
            (Ok(t), Ok(k)) => t.kind() == k,
            (Err(e), Err(f)) => e == f,
            _ => false,
        },
{
    if !is_video && !is_image {
        return Err(UploadRejection::NeitherImageNorVideo);
    }
    match mime {
        None => Err(UploadRejection::NoMimeType),
        Some(m) => {
            if is_image && str_eq(m, "image/gif") {
                Ok(FileType::Gif)
            } else if is_video {
                Ok(FileType::Video(m))
            } else {
                Ok(FileType::Image)
            }
        },
    }
}

/// Classifies an upload by its leading bytes (`PEEK_LEN` of them, or all of
/// a shorter upload), asking `infer` what they are.
pub fn classify_upload(peeked: &[u8]) -> (r: Result<FileType<'static>, UploadRejection>)
    ensures
        match (
            r,
            classify_spec(infer_is_image(peeked@), infer_is_video(peeked@), infer_mime(peeked@)),
        ) {
            (Ok(t), Ok(k)) => t.kind() == k,
            (Err(e), Err(f)) => e == f,
            _ => false,
        },
        r != Err::<FileType<'static>, UploadRejection>(UploadRejection::NoMimeType),
{
    let is_video = sniff_video(peeked);
    let is_image = sniff_image(peeked);
    if !is_video && !is_image {
        return Err(UploadRejection::NeitherImageNorVideo);
    }
    let mime = sniff_mime(peeked);
    classify_sniffed(is_image, is_video, mime)
}

/// The size limit for an upload: the configured `upload/image` limit, or
/// 20 MiB when none is configured.
pub fn upload_limit(configured: Option<u64>) -> (l: u64)
    ensures
        l as int == match configured {
            Some(c) => c as int,
            None => 20 * MEBIBYTE,
        },
{
    match configured {
        Some(c) => c,
        None => DEFAULT_UPLOAD_LIMIT,
    }
}

/// Admission of a classified upload once its bytes were read up to the
/// limit: `complete` tells whether the whole upload fit. An upload that did
/// not fit is refused; otherwise its bytes and kind are kept.
pub fn admit_upload<'a>(data: &'a [u8], complete: bool, file_type: FileType<'a>) -> (r: Result<
    FileData<'a>,
    UploadRejection,
>)
    ensures
        complete <==> r is Ok,
        !complete ==> r == Err::<FileData<'a>, UploadRejection>(UploadRejection::TooLarge),
        r matches Ok(f) ==> f.data@ == data@ && f.file_type.kind() == file_type.kind(),
{
    if !complete {
        Err(UploadRejection::TooLarge)
    } else {
        Ok(FileData { data, file_type })
    }
}

/// Law: an image whose MIME type is `image/gif` is handled as a GIF
/// animation, even when it is taken for a video too.
pub proof fn gif_images_are_animations(is_video: bool)
    ensures
        classify_spec(true, is_video, Some("image/gif"@)) == Ok::<FileKind, UploadRejection>(
            FileKind::Gif,
        ),
{
}

/// Law: a video keeps its MIME type, unless it is also a GIF image.
pub proof fn videos_keep_their_type(is_image: bool, mime: Seq<char>)
    requires
        !(is_image && mime == "image/gif"@),
    ensures
        classify_spec(is_image, true, Some(mime)) == Ok::<FileKind, UploadRejection>(
            FileKind::Video(mime),
        ),
{
}

/// Law: bytes recognised as neither image nor video are refused first,
/// whatever MIME type is found.
pub proof fn unknown_uploads_refused(mime: Option<Seq<char>>)
    ensures
        classify_spec(false, false, mime) == Err::<FileKind, UploadRejection>(
            UploadRejection::NeitherImageNorVideo,
        ),
{
}

/// Law: an upload recognised as an image and not as a video, with a MIME
/// type other than `image/gif`, is a still image, whatever that type is.
pub proof fn other_images_are_stills(mime: Seq<char>)
    requires
        mime != "image/gif"@,
    ensures
        classify_spec(true, false, Some(mime)) == Ok::<FileKind, UploadRejection>(FileKind::Image),
{
}

/// Law: an upload recognised as an image or a video but without a MIME type
/// is refused for that.
pub proof fn recognised_without_mime_refused(is_image: bool, is_video: bool)
    requires
        is_image || is_video,
    ensures
        classify_spec(is_image, is_video, None) == Err::<FileKind, UploadRejection>(
            UploadRejection::NoMimeType,
        ),
{
}

} // verus!
