//! What each route of the upload server answers.
use vstd::prelude::*;

use crate::api_key::ApiKey;
use crate::convert::{conversion_message, ConversionError};
use crate::paths::{
    confined_name, evaluate_file_from_path, is_plain_name, path_has_extension, resolve_spec, stored_webp_path,
    under_dir, uploads_dir,
};
use crate::token::{all_alphanumeric, FILE_NAME_LEN};
use crate::upload::FileType;

verus! {

/// A redirection to another location.
pub struct Redirect {
    pub location: String,
}

/// The body of a JSON reply.
pub enum ReplyBody {
    /// `{"message": ...}`
    Message(String),
    /// `{"link": ..., "delete_link": ...}`
    Links { link: String, delete_link: String },
    /// `{"url": ...}`
    Url(String),
}

/// A JSON reply with its HTTP status.
pub struct Reply {
    pub status: u16,
    pub body: ReplyBody,
}

/// Whether `r` is a reply with this status and message.
pub open spec fn is_message_reply(r: Reply, status: u16, message: Seq<char>) -> bool {
    &&& r.status == status
    &&& r.body matches ReplyBody::Message(m) && m@ == message
}

/// Answer to a request for a missing page: a redirection to `/404`.
pub fn not_found() -> (r: Redirect)
    ensures
        r.location@ == "/404"@,
{
    Redirect { location: String::from_str("/404") }
}

/// Answer to a request for the site root: a redirection to the project's home page.
pub fn index() -> (r: Redirect)
    ensures
        r.location@ == "https://bild.waalrus.xyz"@,
{
    Redirect { location: String::from_str("https://bild.waalrus.xyz") }
}

/// Answer of the catcher for any other error status: that status, with the
/// message that the request left in its cache, or an empty one.
pub fn default(status: u16, cached_message: Option<&str>) -> (r: Reply)
    ensures
        is_message_reply(
            r,
            status,
            match cached_message {
                Some(m) => m@,
                None => Seq::empty(),
            },
        ),
{
    let message = match cached_message {
        Some(m) => String::from_str(m),
        None => String::new(),
    };
    Reply { status, body: ReplyBody::Message(message) }
}

/// Answer to a token check that passed authentication: 202 (Accepted).
pub fn token_validation(key: &ApiKey) -> (status: u16)
    ensures
        status == 202,
{
    202
}

/// The page served for `GET /delete/..`.
pub fn get_delete() -> (path: String)
    ensures
        path@ == "server/static/delete/index.html"@,
{
    String::from_str("server/static/delete/index.html")
}

/// The link under which an upload is served: the server URL, `/` and its name.
pub open spec fn link_spec(server_url: Seq<char>, name: Seq<char>) -> Seq<char> {
    server_url + "/"@ + name
}

/// The link that deletes an upload: the server URL, `/delete/` and its name.
pub open spec fn delete_link_spec(server_url: Seq<char>, name: Seq<char>) -> Seq<char> {
    server_url + "/delete/"@ + name
}

/// How an upload of a given kind is converted.
#[derive(Debug, PartialEq, Eq, Structural)]
pub enum Converter {
    /// Animated: GIF to animated WebP.
    Animation,
    /// Still: image to WebP.
    Still,
    /// No converter: videos are not converted.
    Unsupported,
}

/// The converter for an upload: GIFs are animations, images are stills,
/// videos have none.
pub fn converter_for(file_type: &FileType) -> (c: Converter)
    ensures
        c == match file_type {
            FileType::Gif => Converter::Animation,
            FileType::Image => Converter::Still,
            FileType::Video(_) => Converter::Unsupported,
        },
{
    match file_type {
        FileType::Gif => Converter::Animation,
        FileType::Image => Converter::Still,
        FileType::Video(_) => Converter::Unsupported,
    }
}

/// Answer to an upload authenticated by `key`, once its conversion finished: on
/// success 200 with the link to the stored file and the link that deletes
/// it; on failure 500 with the error's message.
pub fn upload(key: &ApiKey, server_url: &str, conversion: Result<String, ConversionError>) -> (r: Reply)
    ensures
        match conversion {
            Ok(name) => {
                &&& r.status == 200
                &&& r.body matches ReplyBody::Links { link, delete_link } && link@ == link_spec(
                    server_url@,
                    name@,
                ) && delete_link@ == delete_link_spec(server_url@, name@)
            },
            Err(e) => is_message_reply(r, 500, conversion_message(e)),
        },
{
    match conversion {
        Ok(name) => {
            let mut link = String::from_str(server_url);
            link.append("/");
            link.append(name.as_str());
            let mut delete_link = String::from_str(server_url);
            delete_link.append("/delete/");
            delete_link.append(name.as_str());
            Reply { status: 200, body: ReplyBody::Links { link, delete_link } }
        },
        Err(e) => Reply { status: 500, body: ReplyBody::Message(e.message()) },
    }
}

/// Answer to `GET /<file>`: the stored file that serves the requested name,
/// given whether its WebP and its MP4 versions exist. A plain name, such as
/// every name drawn for an upload, is served from `uploads/<name>.webp`
/// while that file exists, which is the file its upload was written to; a
/// name of ordinary components is never served from outside `uploads/`,
/// and is served from a path with an extension.
pub fn file(requested: &str, webp_exists: bool, mp4_exists: bool) -> (r: Option<String>)
    ensures
        match (r, resolve_spec(requested@, webp_exists, mp4_exists)) {
            (Some(p), Some(q)) => p@ == q,
            (None, None) => true,
            _ => false,
        },
        is_plain_name(requested@) && webp_exists ==> (r matches Some(p) && p@ == stored_webp_path(
            requested@,
        )),
        is_plain_name(requested@) && !webp_exists ==> match r {
            Some(p) => mp4_exists && p@ == uploads_dir() + requested@ + ".mp4"@,
            None => !mp4_exists,
        },
        confined_name(requested@) ==> (r matches Some(p) ==> under_dir(p@, uploads_dir())
            && path_has_extension(p@)),
{
    evaluate_file_from_path(requested, webp_exists, mp4_exists)
}

/// Law: the link an upload is answered with names the upload by its drawn
/// name, a plain name: the request path after the server URL and `/` is
/// that name, which `file` serves from the upload's stored WebP file.
pub proof fn upload_link_names_stored_upload(server_url: Seq<char>, n: Seq<char>)
    requires
        n.len() == FILE_NAME_LEN,
        all_alphanumeric(n),
    ensures
        link_spec(server_url, n).skip(server_url.len() + 1int) == n,
        is_plain_name(n),
{
    reveal_strlit("/");
    assert(link_spec(server_url, n).skip(server_url.len() + 1int) =~= n);
}

/// Law: both links of a successful upload start with the configured server
/// URL; the view link goes on with `/` and the upload's name, the delete
/// link with `/delete/` and the name.
pub proof fn upload_links_use_server_url(server_url: Seq<char>, n: Seq<char>)
    ensures
        link_spec(server_url, n).len() == server_url.len() + 1 + n.len(),
        link_spec(server_url, n).take(server_url.len() as int) == server_url,
        link_spec(server_url, n)[server_url.len() as int] == '/',
        link_spec(server_url, n).skip(server_url.len() + 1int) == n,
        delete_link_spec(server_url, n).len() == server_url.len() + 8 + n.len(),
        delete_link_spec(server_url, n).take(server_url.len() as int) == server_url,
        delete_link_spec(server_url, n).skip(server_url.len() as int).take(8) == seq![
            '/',
            'd',
            'e',
            'l',
            'e',
            't',
            'e',
            '/',
        ],
        delete_link_spec(server_url, n).skip(server_url.len() + 8int) == n,
{
    reveal_strlit("/");
    reveal_strlit("/delete/");
    let l = link_spec(server_url, n);
    let d = delete_link_spec(server_url, n);
    assert(l.take(server_url.len() as int) =~= server_url);
    assert(l.skip(server_url.len() + 1int) =~= n);
    assert(d.take(server_url.len() as int) =~= server_url);
    assert(d.skip(server_url.len() as int).take(8) =~= seq!['/', 'd', 'e', 'l', 'e', 't', 'e', '/']);
    assert(d.skip(server_url.len() + 8int) =~= n);
}

/// How removing an upload went.
pub enum Removal {
    /// No file serves the name.
    NotFound,
    /// The file was removed.
    Removed,
    /// Removing the file failed, with the reason.
    Failed(String),
}

/// Answer to a deletion, authenticated by `key`, of the upload `name`: 404 with
/// `No such file` when no file serves it, 200 with `Deleted <name>` when it
/// was removed, 500 with the reason when removing failed.
pub fn delete_upload(key: &ApiKey, name: &str, removal: Removal) -> (r: Reply)
    ensures
        match removal {
            Removal::NotFound => is_message_reply(r, 404, "No such file"@),
            Removal::Removed => is_message_reply(r, 200, "Deleted "@ + name@),
            Removal::Failed(reason) => is_message_reply(r, 500, reason@),
        },
{
    match removal {
        Removal::NotFound => Reply {
            status: 404,
            body: ReplyBody::Message(String::from_str("No such file")),
        },
        Removal::Removed => {
            let mut m = String::from_str("Deleted ");
            m.append(name);
            Reply { status: 200, body: ReplyBody::Message(m) }
        },
        Removal::Failed(reason) => Reply { status: 500, body: ReplyBody::Message(reason) },
    }
}

} // verus!
