//! File-system paths of stored uploads, built with `std::path`.
use vstd::prelude::*;

use std::path::Path;

use crate::token::all_alphanumeric;
use crate::text::is_ascii_alphanumeric;

verus! {

/// A file name made of ASCII letters and digits only, as stored uploads have.
pub open spec fn is_plain_name(n: Seq<char>) -> bool {
    n.len() > 0 && all_alphanumeric(n)
}

/// A path whose last component is made of ASCII letters and digits only
/// (it follows a `/` and holds no `.`).
pub open spec fn ends_in_plain_name(p: Seq<char>) -> bool {
    exists|i: int|
        0 <= i < p.len() - 1 && p[i] == '/' && forall|k: int|
            i < k < p.len() ==> is_ascii_alphanumeric(#[trigger] p[k])
}

/// No `/` occurs in the text.
pub open spec fn has_no_separator(s: Seq<char>) -> bool {
    forall|i: int| 0 <= i < s.len() ==> s[i] != '/'
}

/// A relative name made of ordinary components only: it is not empty, does
/// not start with `/`, and no component of it starts with `.` (so none is
/// `.` or `..`).
pub open spec fn confined_name(rel: Seq<char>) -> bool {
    &&& rel.len() > 0
    &&& rel[0] != '/'
    &&& rel[0] != '.'
    &&& forall|i: int| 0 < i < rel.len() && rel[i - 1] == '/' ==> #[trigger] rel[i] != '.'
}

/// A directory prefix of one ordinary component: a name without `/` that
/// does not start with `.`, then `/`.
pub open spec fn dir_prefix(d: Seq<char>) -> bool {
    &&& d.len() > 1
    &&& d.last() == '/'
    &&& d[0] != '.'
    &&& has_no_separator(d.drop_last())
}

/// The path lies under the directory `dir`: it starts with `dir` and goes
/// on after it.
pub open spec fn under_dir(p: Seq<char>, dir: Seq<char>) -> bool {
    p.len() > dir.len() && p.take(dir.len() as int) == dir
}

/// What `Path::join` gives for these two paths.
pub uninterp spec fn path_join(base: Seq<char>, rel: Seq<char>) -> Seq<char>;

/// Whether `Path::extension` finds an extension in this path.
pub uninterp spec fn path_has_extension(p: Seq<char>) -> bool;

/// What `Path::with_extension` gives for this path and extension.
pub uninterp spec fn path_with_extension(p: Seq<char>, ext: Seq<char>) -> Seq<char>;

/// What `Path::with_file_name` gives for this path and file name.
pub uninterp spec fn path_with_file_name(p: Seq<char>, name: Seq<char>) -> Seq<char>;

/// `Path::with_file_name`: the path with its file name replaced by `name`.
#[verifier::external_body]
pub(crate) fn with_file_name(p: &str, name: &str) -> (r: String)
    ensures
        r@ == path_with_file_name(p@, name@),
{
    Path::new(p).with_file_name(name).to_string_lossy().into_owned()
}

/// `Path::join`: `rel` appended to `base` (or `rel` alone when it is
/// absolute). As its documentation says of `push`, a relative `rel` is
/// appended after a separator, which is not repeated when `base` already
/// ends in one: so on Unix a `base` that ends in `/` and a non-empty `rel`
/// that does not start with `/` give their concatenation.
#[verifier::external_body]
pub(crate) fn join_path(base: &str, rel: &str) -> (r: String)
    ensures
        r@ == path_join(base@, rel@),
        base@.len() > 0 && base@.last() == '/' && rel@.len() > 0 && rel@[0] != '/' ==> r@
            == base@ + rel@,
{
    Path::new(base).join(rel).to_string_lossy().into_owned()
}

/// `Path::extension(..).is_some()`: whether the file name of the path has an
/// extension.
/// As documented, there is none when the file name holds no `.`.
#[verifier::external_body]
pub(crate) fn has_extension(p: &str) -> (r: bool)
    ensures
        r == path_has_extension(p@),
        ends_in_plain_name(p@) ==> !r,
{
    Path::new(p).extension().is_some()
}

/// `Path::with_extension`: the path with the extension of its file name set
/// to `ext`. As documented, it panics when `ext` holds a path separator, and
/// a file name without extension gets `.` and `ext` added. Only the file
/// name changes: a directory followed by ordinary components stays in front,
/// and the new file name has the extension `ext` when it is not empty.
#[verifier::external_body]
pub(crate) fn with_extension(p: &str, ext: &str) -> (r: String)
    requires
        has_no_separator(ext@),
    ensures
        r@ == path_with_extension(p@, ext@),
        ends_in_plain_name(p@) && ext@.len() > 0 ==> r@ == p@ + "."@ + ext@,
        forall|n: int|
            0 < n < p@.len() && #[trigger] dir_prefix(p@.take(n)) && confined_name(p@.skip(n))
                ==> under_dir(r@, p@.take(n)) && (ext@.len() > 0 ==> path_has_extension(r@)),
{
    Path::new(p).with_extension(ext).to_string_lossy().into_owned()
}

/// The directory that holds the converted uploads.
pub open spec fn uploads_dir() -> Seq<char> {
    "uploads/"@
}

/// Where an upload named `file` is looked for: `uploads/` joined with it.
pub open spec fn upload_path_spec(file: Seq<char>) -> Seq<char> {
    path_join(uploads_dir(), file)
}

/// The file a converted upload named `n` is stored in: `uploads/`, `n` and `.webp`.
pub open spec fn stored_webp_path(n: Seq<char>) -> Seq<char> {
    uploads_dir() + n + ".webp"@
}

/// Facts about the directory of uploads and the extensions used on it.
proof fn lemma_literals()
    ensures
        uploads_dir().len() == 8,
        uploads_dir()[7] == '/',
        uploads_dir()[0] != '/',
        dir_prefix(uploads_dir()),
        has_no_separator("webp"@),
        has_no_separator("mp4"@),
        "webp"@.len() > 0,
        "mp4"@.len() > 0,
        "."@ + "webp"@ == ".webp"@,
        "."@ + "mp4"@ == ".mp4"@,
{
    reveal_strlit(".");
    reveal_strlit(".webp");
    reveal_strlit(".mp4");
    reveal_strlit("uploads/");
    reveal_strlit("webp");
    reveal_strlit("mp4");
    assert("."@ + "webp"@ =~= ".webp"@);
    assert("."@ + "mp4"@ =~= ".mp4"@);
    assert(has_no_separator(uploads_dir().drop_last()));
}

/// The upload path of a plain name ends in that plain name.
proof fn lemma_plain_upload_path(n: Seq<char>)
    requires
        is_plain_name(n),
    ensures
        ends_in_plain_name(uploads_dir() + n),
{
    lemma_literals();
    let p = uploads_dir() + n;
    assert(p[7] == '/');
    assert forall|k: int| 7 < k < p.len() implies is_ascii_alphanumeric(#[trigger] p[k]) by {
        assert(p[k] == n[k - 8]);
    }
}

/// Where an upload named `file` is looked for: `uploads/` joined with it.
pub fn upload_path(file: &str) -> (p: String)
    ensures
        p@ == upload_path_spec(file@),
        file@.len() > 0 && file@[0] != '/' ==> p@ == uploads_dir() + file@,
        is_plain_name(file@) ==> p@ == uploads_dir() + file@,
{
    proof {
        lemma_literals();
    }
    join_path("uploads/", file)
}

/// The file that holds the WebP version of an upload named `file`.
pub fn webp_candidate(file: &str) -> (p: String)
    ensures
        p@ == path_with_extension(upload_path_spec(file@), "webp"@),
        is_plain_name(file@) ==> p@ == stored_webp_path(file@),
{
    proof {
        lemma_literals();
        if is_plain_name(file@) {
            lemma_plain_upload_path(file@);
        }
    }
    let base = upload_path(file);
    let p = with_extension(base.as_str(), "webp");
    assert(is_plain_name(file@) ==> p@ =~= stored_webp_path(file@));
    p
}

/// The file that holds the MP4 version of an upload named `file`.
pub fn mp4_candidate(file: &str) -> (p: String)
    ensures
        p@ == path_with_extension(upload_path_spec(file@), "mp4"@),
        is_plain_name(file@) ==> p@ == uploads_dir() + file@ + ".mp4"@,
{
    proof {
        lemma_literals();
        if is_plain_name(file@) {
            lemma_plain_upload_path(file@);
        }
    }
    let base = upload_path(file);
    let p = with_extension(base.as_str(), "mp4");
    assert(is_plain_name(file@) ==> p@ =~= uploads_dir() + file@ + ".mp4"@);
    p
}

/// Which file serves a request for `file`, given whether its WebP and its MP4
/// versions exist: a name with an extension is served as it is; otherwise the
/// WebP version, then the MP4 version; otherwise none.
pub open spec fn resolve_spec(file: Seq<char>, webp_exists: bool, mp4_exists: bool) -> Option<
    Seq<char>,
> {
    let p = upload_path_spec(file);
    if path_has_extension(p) {
        Some(p)
    } else if webp_exists {
        Some(path_with_extension(p, "webp"@))
    } else if mp4_exists {
        Some(path_with_extension(p, "mp4"@))
    } else {
        None
    }
}

/// The file that serves a request for `file`; `webp_exists` and `mp4_exists`
/// tell whether `webp_candidate(file)` and `mp4_candidate(file)` exist.
pub fn evaluate_file_from_path(file: &str, webp_exists: bool, mp4_exists: bool) -> (r: Option<
    String,
>)
    ensures
        match (r, resolve_spec(file@, webp_exists, mp4_exists)) {
            (Some(p), Some(q)) => p@ == q,
            (None, None) => true,
            _ => false,
        },
        is_plain_name(file@) ==> match r {
            Some(p) => (webp_exists && p@ == stored_webp_path(file@)) || (!webp_exists
                && mp4_exists && p@ == uploads_dir() + file@ + ".mp4"@),
            None => !webp_exists && !mp4_exists,
        },
        confined_name(file@) ==> (r matches Some(p) ==> under_dir(p@, uploads_dir())
            && path_has_extension(p@)),
{
    proof {
        lemma_literals();
        if is_plain_name(file@) {
            lemma_plain_upload_path(file@);
        }
    }
    let p = upload_path(file);
    proof {
        if confined_name(file@) {
            assert(p@.take(8) =~= uploads_dir());
            assert(p@.skip(8) =~= file@);
            assert(dir_prefix(p@.take(8)));
        }
    }
    if has_extension(p.as_str()) {
        Some(p)
    } else if webp_exists {
        let q = with_extension(p.as_str(), "webp");
        assert(is_plain_name(file@) ==> q@ =~= stored_webp_path(file@));
        Some(q)
    } else if mp4_exists {
        let q = with_extension(p.as_str(), "mp4");
        assert(is_plain_name(file@) ==> q@ =~= uploads_dir() + file@ + ".mp4"@);
        Some(q)
    } else {
        None
    }
}

/// The file a converted still image is written to: `uploads/` joined with
/// its name, with the extension `webp`.
pub fn image_output_path(name: &str) -> (p: String)
    ensures
        p@ == path_with_extension(upload_path_spec(name@), "webp"@),
        is_plain_name(name@) ==> p@ == stored_webp_path(name@),
{
    webp_candidate(name)
}

/// The file a converted animation is written to: `uploads/`, `/`, its name
/// and `.webp`.
pub fn animation_output_path(name: &str) -> (p: String)
    ensures
        p@ == uploads_dir() + "/"@ + name@ + ".webp"@,
{
    let mut p = String::from_str("uploads/");
    p.append("/");
    p.append(name);
    p.append(".webp");
    p
}

/// Law: the names drawn for stored uploads (`FILE_NAME_LEN` letters and
/// digits) are plain names, so the file an upload is stored in is the one
/// its name is served from.
pub proof fn drawn_names_are_plain(n: Seq<char>)
    requires
        n.len() == crate::token::FILE_NAME_LEN,
        all_alphanumeric(n),
    ensures
        is_plain_name(n),
{
}

/// Law: the file a converted animation named `n` is written to is the stored
/// file of `n` with its separator doubled, which names the same file.
pub proof fn animation_path_names_stored_file(n: Seq<char>)
    ensures
        uploads_dir() + "/"@ + n + ".webp"@ == stored_webp_path(n).take(8) + "/"@
            + stored_webp_path(n).skip(8),
{
    lemma_literals();
    assert(uploads_dir() + "/"@ + n + ".webp"@ =~= stored_webp_path(n).take(8) + "/"@
        + stored_webp_path(n).skip(8));
}

/// Law: a requested name whose upload path has an extension is served as that
/// path, whatever other versions exist.
pub proof fn extension_served_as_is(file: Seq<char>, webp_exists: bool, mp4_exists: bool)
    requires
        path_has_extension(upload_path_spec(file)),
    ensures
        resolve_spec(file, webp_exists, mp4_exists) == Some(upload_path_spec(file)),
{
}

/// Law: for a name without extension the WebP version is preferred to the
/// MP4 one, and nothing is served when neither exists.
pub proof fn webp_preferred(file: Seq<char>, mp4_exists: bool)
    requires
        !path_has_extension(upload_path_spec(file)),
    ensures
        resolve_spec(file, true, mp4_exists) == Some(
            path_with_extension(upload_path_spec(file), "webp"@),
        ),
        resolve_spec(file, false, false) is None,
{
}

} // verus!
