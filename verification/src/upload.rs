use vstd::prelude::*;
use vstd::string::StringExecFns;

use base64::Engine;

use crate::api::{base_of, is_post_json, ApiClient, HttpRequest};
use crate::error::CliError;
use crate::json::{distinct_keys, Json};
use crate::media::{first_uploaded_url, is_remote, uploaded_url};
use crate::text::{lemma_lower_idempotent, lower_eq, lower_seq};

verus! {

/// What the `base64` crate's STANDARD engine (standard alphabet, with padding) makes of
/// `bytes`.
pub uninterp spec fn base64_standard(bytes: Seq<u8>) -> Seq<char>;

/// `base64::engine::general_purpose::STANDARD.encode`: the text is named `base64_standard`;
/// its length is four characters for every started group of three bytes, as the crate's
/// `encoded_len` computes it. The bound keeps that computation from overflowing, where the
/// crate would panic.
#[verifier::external_body]
fn base64_encode(bytes: &[u8]) -> (r: String)
    requires
        bytes@.len() / 3 * 4 + 4 <= usize::MAX,
    ensures
        r@ == base64_standard(bytes@),
        r@.len() == (bytes@.len() + 2) / 3 * 4,
{
    base64::engine::general_purpose::STANDARD.encode(bytes)
}

/// `e` stands in `path` right after a `.`, ending where `path` ends or before any later
/// character.
pub open spec fn follows_dot_at(path: Seq<char>, i: int, e: Seq<char>) -> bool {
    &&& 0 <= i
    &&& i + 1 + e.len() <= path.len()
    &&& path[i] == '.'
    &&& path.subrange(i + 1, i + 1 + e.len()) == e
}

/// `e` can be read in `path` right after some `.`.
pub open spec fn follows_dot(path: Seq<char>, e: Seq<char>) -> bool {
    exists|i: int| #[trigger] follows_dot_at(path, i, e)
}

/// `c` separates path components on some platform.
pub open spec fn is_separator(c: char) -> bool {
    c == '/' || c == '\\'
}

/// The last `.` of `path` stands at `d` and ends the path's last component: nothing after
/// it is a separator or a `.`, and `path` does not open with two separators, as a network,
/// device or verbatim path does.
pub open spec fn last_dot_at(path: Seq<char>, d: int) -> bool {
    &&& 0 <= d < path.len()
    &&& path[d] == '.'
    &&& forall|k: int|
        #![trigger path[k]]
        d < k < path.len() ==> !(is_separator(path[k]) || path[k] == '.')
    &&& !(path.len() >= 2 && is_separator(path[0]) && is_separator(path[1]))
}

/// The last component of `path` holds a `.` at `d` after a non-empty part that stands in
/// the component on every platform: the character before it is no separator and no drive's
/// `:`; and when it is a `.` too, the component is not `..` (nor `..` after a drive).
pub open spec fn plain_extension_at(path: Seq<char>, d: int) -> bool {
    &&& last_dot_at(path, d)
    &&& 1 <= d
    &&& !(is_separator(path[d - 1]) || path[d - 1] == ':')
    &&& (path[d - 1] == '.' ==> !(d == path.len() - 1 && (d == 1 || is_separator(path[d - 2])
        || path[d - 2] == ':')))
}

/// The last component of `path` is a `.` followed by a non-empty name with no other `.`:
/// a name that only begins with `.`, which has no extension.
pub open spec fn dot_name_at(path: Seq<char>, d: int) -> bool {
    &&& last_dot_at(path, d)
    &&& d < path.len() - 1
    &&& (d == 0 || path[d - 1] == '/')
}

/// `path`'s file name only begins with `.`, in the sense of `dot_name_at`.
pub open spec fn dot_name(path: Seq<char>) -> bool {
    exists|d: int| dot_name_at(path, d)
}

/// The extension of a path whose file name is plain in the sense of `plain_extension_at`:
/// what follows its last `.`. `None` when the path is not of that kind.
pub open spec fn plain_extension(path: Seq<char>) -> Option<Seq<char>> {
    if exists|d: int| plain_extension_at(path, d) {
        let d = choose|d: int| plain_extension_at(path, d);
        Some(path.subrange(d + 1, path.len() as int))
    } else {
        None
    }
}

/// `std::path::Path::extension` of `path`, as text. Its documentation makes it `None` when
/// there is no file name, when the file name holds no `.`, and when the file name begins
/// with `.` and holds no other; otherwise the part of the file name after the final `.`.
/// So an extension is read in `path` right after a `.` and holds no `.` itself, and a path
/// without any `.` has none. The file name is the last component, with separators `/` (and
/// `\\` on Windows), repeated separators and `.` components left out; a component `..` is
/// no file name. Where nothing after the last `.` of `path` is a separator or a `.`, and
/// `path` does not open with two separators, that `.` stands in the last component on every
/// platform. When it comes first in it (at the start, or after a `/`) with a name after it,
/// the file name begins with `.` and holds no other: no extension. When it comes after a
/// non-empty part that no platform splits off (the character before it is no separator and
/// no `:`, and the component is not `..`), the extension is the text after it. A `&str`
/// path is valid UTF-8, and so is the part of it after a `.`.
#[verifier::external_body]
fn file_extension(path: &str) -> (r: Option<String>)
    ensures
        r matches Some(e) ==> !e@.contains('.') && follows_dot(path@, e@),
        !path@.contains('.') ==> r is None,
        plain_extension(path@) is Some ==> r is Some && r->0@ == plain_extension(path@)->0,
        dot_name(path@) ==> r is None,
{
    match std::path::Path::new(path).extension() {
        Some(e) => match e.to_str() {
            Some(t) => Some(t.to_owned()),
            None => None,
        },
        None => None,
    }
}

/// The media type of a file extension, ignoring ASCII case.
pub open spec fn mime_of(ext: Seq<char>) -> Option<Seq<char>> {
    let l = lower_seq(ext);
    if l == "png"@ {
        Some("image/png"@)
    } else if l == "jpg"@ || l == "jpeg"@ || l == "jfif"@ || l == "pjp"@ {
        Some("image/jpeg"@)
    } else if l == "webp"@ {
        Some("image/webp"@)
    } else if l == "gif"@ {
        Some("image/gif"@)
    } else if l == "bmp"@ {
        Some("image/bmp"@)
    } else if l == "svg"@ || l == "svgz"@ {
        Some("image/svg+xml"@)
    } else if l == "heic"@ {
        Some("image/heic"@)
    } else if l == "heif"@ {
        Some("image/heif"@)
    } else if l == "tif"@ || l == "tiff"@ {
        Some("image/tiff"@)
    } else if l == "mp3"@ {
        Some("audio/mpeg"@)
    } else if l == "aiff"@ {
        Some("audio/aiff"@)
    } else if l == "wma"@ {
        Some("audio/x-ms-wma"@)
    } else if l == "au"@ {
        Some("audio/basic"@)
    } else if l == "mp4"@ {
        Some("video/mp4"@)
    } else if l == "mov"@ {
        Some("video/quicktime"@)
    } else if l == "avi"@ {
        Some("video/x-msvideo"@)
    } else if l == "mkv"@ {
        Some("video/x-matroska"@)
    } else if l == "wmv"@ {
        Some("video/x-ms-wmv"@)
    } else if l == "flv"@ {
        Some("video/x-flv"@)
    } else if l == "webm"@ {
        Some("video/webm"@)
    } else if l == "mpeg"@ || l == "mpg"@ {
        Some("video/mpeg"@)
    } else {
        None
    }
}

/// The extensions of the media table, in its order.
spec fn table_extensions() -> Seq<Seq<char>> {
    seq![
        "png"@,
        "jpg"@,
        "jpeg"@,
        "jfif"@,
        "pjp"@,
        "webp"@,
        "gif"@,
        "bmp"@,
        "svg"@,
        "svgz"@,
        "heic"@,
        "heif"@,
        "tif"@,
        "tiff"@,
        "mp3"@,
        "aiff"@,
        "wma"@,
        "au"@,
        "mp4"@,
        "mov"@,
        "avi"@,
        "mkv"@,
        "wmv"@,
        "flv"@,
        "webm"@,
        "mpeg"@,
        "mpg"@,
    ]
}

proof fn lemma_table_extensions_distinct()
    ensures
        forall|i: int, j: int|
            0 <= i < j < table_extensions().len() ==> #[trigger] table_extensions()[i]
                != #[trigger] table_extensions()[j],
{
    reveal_strlit("png");
    reveal_strlit("jpg");
    reveal_strlit("jpeg");
    reveal_strlit("jfif");
    reveal_strlit("pjp");
    reveal_strlit("webp");
    reveal_strlit("gif");
    reveal_strlit("bmp");
    reveal_strlit("svg");
    reveal_strlit("svgz");
    reveal_strlit("heic");
    reveal_strlit("heif");
    reveal_strlit("tif");
    reveal_strlit("tiff");
    reveal_strlit("mp3");
    reveal_strlit("aiff");
    reveal_strlit("wma");
    reveal_strlit("au");
    reveal_strlit("mp4");
    reveal_strlit("mov");
    reveal_strlit("avi");
    reveal_strlit("mkv");
    reveal_strlit("wmv");
    reveal_strlit("flv");
    reveal_strlit("webm");
    reveal_strlit("mpeg");
    reveal_strlit("mpg");
    let all = table_extensions();
    assert forall|i: int, j: int| 0 <= i < j < all.len() implies #[trigger] all[i] != #[trigger] all[j] by {
        if all[i] == all[j] {
            assert(all[i].len() == all[j].len());
            assert(all[i][0] == all[j][0]);
            assert(all[i][1] == all[j][1]);
            if all[i].len() > 2 {
                assert(all[i][2] == all[j][2]);
            }
            if all[i].len() > 3 {
                assert(all[i][3] == all[j][3]);
            }
        }
    }
}

/// Law: the media table, row by row. An extension, in any ASCII case, has the media type
/// its row gives: `png` is `image/png`, `jpg`, `jpeg`, `jfif` and `pjp` are `image/jpeg`,
/// and so on; one that is in no row has none.
pub proof fn lemma_media_table(ext: Seq<char>)
    ensures
        lower_seq(ext) == "png"@ ==> mime_of(ext) == Some("image/png"@),
        lower_seq(ext) == "jpg"@ ==> mime_of(ext) == Some("image/jpeg"@),
        lower_seq(ext) == "jpeg"@ ==> mime_of(ext) == Some("image/jpeg"@),
        lower_seq(ext) == "jfif"@ ==> mime_of(ext) == Some("image/jpeg"@),
        lower_seq(ext) == "pjp"@ ==> mime_of(ext) == Some("image/jpeg"@),
        lower_seq(ext) == "webp"@ ==> mime_of(ext) == Some("image/webp"@),
        lower_seq(ext) == "gif"@ ==> mime_of(ext) == Some("image/gif"@),
        lower_seq(ext) == "bmp"@ ==> mime_of(ext) == Some("image/bmp"@),
        lower_seq(ext) == "svg"@ ==> mime_of(ext) == Some("image/svg+xml"@),
        lower_seq(ext) == "svgz"@ ==> mime_of(ext) == Some("image/svg+xml"@),
        lower_seq(ext) == "heic"@ ==> mime_of(ext) == Some("image/heic"@),
        lower_seq(ext) == "heif"@ ==> mime_of(ext) == Some("image/heif"@),
        lower_seq(ext) == "tif"@ ==> mime_of(ext) == Some("image/tiff"@),
        lower_seq(ext) == "tiff"@ ==> mime_of(ext) == Some("image/tiff"@),
        lower_seq(ext) == "mp3"@ ==> mime_of(ext) == Some("audio/mpeg"@),
        lower_seq(ext) == "aiff"@ ==> mime_of(ext) == Some("audio/aiff"@),
        lower_seq(ext) == "wma"@ ==> mime_of(ext) == Some("audio/x-ms-wma"@),
        lower_seq(ext) == "au"@ ==> mime_of(ext) == Some("audio/basic"@),
        lower_seq(ext) == "mp4"@ ==> mime_of(ext) == Some("video/mp4"@),
        lower_seq(ext) == "mov"@ ==> mime_of(ext) == Some("video/quicktime"@),
        lower_seq(ext) == "avi"@ ==> mime_of(ext) == Some("video/x-msvideo"@),
        lower_seq(ext) == "mkv"@ ==> mime_of(ext) == Some("video/x-matroska"@),
        lower_seq(ext) == "wmv"@ ==> mime_of(ext) == Some("video/x-ms-wmv"@),
        lower_seq(ext) == "flv"@ ==> mime_of(ext) == Some("video/x-flv"@),
        lower_seq(ext) == "webm"@ ==> mime_of(ext) == Some("video/webm"@),
        lower_seq(ext) == "mpeg"@ ==> mime_of(ext) == Some("video/mpeg"@),
        lower_seq(ext) == "mpg"@ ==> mime_of(ext) == Some("video/mpeg"@),
        !(lower_seq(ext) == "png"@ || lower_seq(ext) == "jpg"@ || lower_seq(ext) == "jpeg"@ || lower_seq(ext) == "jfif"@ || lower_seq(ext) == "pjp"@ || lower_seq(ext) == "webp"@ || lower_seq(ext) == "gif"@ || lower_seq(ext) == "bmp"@ || lower_seq(ext) == "svg"@ || lower_seq(ext) == "svgz"@ || lower_seq(ext) == "heic"@ || lower_seq(ext) == "heif"@ || lower_seq(ext) == "tif"@ || lower_seq(ext) == "tiff"@ || lower_seq(ext) == "mp3"@ || lower_seq(ext) == "aiff"@ || lower_seq(ext) == "wma"@ || lower_seq(ext) == "au"@ || lower_seq(ext) == "mp4"@ || lower_seq(ext) == "mov"@ || lower_seq(ext) == "avi"@ || lower_seq(ext) == "mkv"@ || lower_seq(ext) == "wmv"@ || lower_seq(ext) == "flv"@ || lower_seq(ext) == "webm"@ || lower_seq(ext) == "mpeg"@ || lower_seq(ext) == "mpg"@) ==> mime_of(ext) is None,
{
    reveal_strlit("png");
    reveal_strlit("jpg");
    reveal_strlit("jpeg");
    reveal_strlit("jfif");
    reveal_strlit("pjp");
    reveal_strlit("webp");
    reveal_strlit("gif");
    reveal_strlit("bmp");
    reveal_strlit("svg");
    reveal_strlit("svgz");
    reveal_strlit("heic");
    reveal_strlit("heif");
    reveal_strlit("tif");
    reveal_strlit("tiff");
    reveal_strlit("mp3");
    reveal_strlit("aiff");
    reveal_strlit("wma");
    reveal_strlit("au");
    reveal_strlit("mp4");
    reveal_strlit("mov");
    reveal_strlit("avi");
    reveal_strlit("mkv");
    reveal_strlit("wmv");
    reveal_strlit("flv");
    reveal_strlit("webm");
    reveal_strlit("mpeg");
    reveal_strlit("mpg");
    lemma_table_extensions_distinct();
    let all = table_extensions();
    assert(all[0] == "png"@);
    assert(all[1] == "jpg"@);
    assert(all[2] == "jpeg"@);
    assert(all[3] == "jfif"@);
    assert(all[4] == "pjp"@);
    assert(all[5] == "webp"@);
    assert(all[6] == "gif"@);
    assert(all[7] == "bmp"@);
    assert(all[8] == "svg"@);
    assert(all[9] == "svgz"@);
    assert(all[10] == "heic"@);
    assert(all[11] == "heif"@);
    assert(all[12] == "tif"@);
    assert(all[13] == "tiff"@);
    assert(all[14] == "mp3"@);
    assert(all[15] == "aiff"@);
    assert(all[16] == "wma"@);
    assert(all[17] == "au"@);
    assert(all[18] == "mp4"@);
    assert(all[19] == "mov"@);
    assert(all[20] == "avi"@);
    assert(all[21] == "mkv"@);
    assert(all[22] == "wmv"@);
    assert(all[23] == "flv"@);
    assert(all[24] == "webm"@);
    assert(all[25] == "mpeg"@);
    assert(all[26] == "mpg"@);
}

/// A data URL: `data:<mime>;base64,<encoded>`.
pub open spec fn data_url_text(mime: Seq<char>, encoded: Seq<char>) -> Seq<char> {
    "data:"@ + mime + ";base64,"@ + encoded
}

/// The media type of a file extension, ignoring ASCII case; `None` for any other.
pub fn mime_for_extension(ext: &str) -> (r: Option<&'static str>)
    ensures
        r matches Some(m) ==> mime_of(ext@) == Some(m@),
        r is None ==> mime_of(ext@) is None,
        lower_seq(ext@) == "png"@ ==> (r matches Some(m) && m@ == "image/png"@),
        lower_seq(ext@) == "jpg"@ ==> (r matches Some(m) && m@ == "image/jpeg"@),
        lower_seq(ext@) == "jpeg"@ ==> (r matches Some(m) && m@ == "image/jpeg"@),
        lower_seq(ext@) == "jfif"@ ==> (r matches Some(m) && m@ == "image/jpeg"@),
        lower_seq(ext@) == "pjp"@ ==> (r matches Some(m) && m@ == "image/jpeg"@),
        lower_seq(ext@) == "webp"@ ==> (r matches Some(m) && m@ == "image/webp"@),
        lower_seq(ext@) == "gif"@ ==> (r matches Some(m) && m@ == "image/gif"@),
        lower_seq(ext@) == "bmp"@ ==> (r matches Some(m) && m@ == "image/bmp"@),
        lower_seq(ext@) == "svg"@ ==> (r matches Some(m) && m@ == "image/svg+xml"@),
        lower_seq(ext@) == "svgz"@ ==> (r matches Some(m) && m@ == "image/svg+xml"@),
        lower_seq(ext@) == "heic"@ ==> (r matches Some(m) && m@ == "image/heic"@),
        lower_seq(ext@) == "heif"@ ==> (r matches Some(m) && m@ == "image/heif"@),
        lower_seq(ext@) == "tif"@ ==> (r matches Some(m) && m@ == "image/tiff"@),
        lower_seq(ext@) == "tiff"@ ==> (r matches Some(m) && m@ == "image/tiff"@),
        lower_seq(ext@) == "mp3"@ ==> (r matches Some(m) && m@ == "audio/mpeg"@),
        lower_seq(ext@) == "aiff"@ ==> (r matches Some(m) && m@ == "audio/aiff"@),
        lower_seq(ext@) == "wma"@ ==> (r matches Some(m) && m@ == "audio/x-ms-wma"@),
        lower_seq(ext@) == "au"@ ==> (r matches Some(m) && m@ == "audio/basic"@),
        lower_seq(ext@) == "mp4"@ ==> (r matches Some(m) && m@ == "video/mp4"@),
        lower_seq(ext@) == "mov"@ ==> (r matches Some(m) && m@ == "video/quicktime"@),
        lower_seq(ext@) == "avi"@ ==> (r matches Some(m) && m@ == "video/x-msvideo"@),
        lower_seq(ext@) == "mkv"@ ==> (r matches Some(m) && m@ == "video/x-matroska"@),
        lower_seq(ext@) == "wmv"@ ==> (r matches Some(m) && m@ == "video/x-ms-wmv"@),
        lower_seq(ext@) == "flv"@ ==> (r matches Some(m) && m@ == "video/x-flv"@),
        lower_seq(ext@) == "webm"@ ==> (r matches Some(m) && m@ == "video/webm"@),
        lower_seq(ext@) == "mpeg"@ ==> (r matches Some(m) && m@ == "video/mpeg"@),
        lower_seq(ext@) == "mpg"@ ==> (r matches Some(m) && m@ == "video/mpeg"@),
{
    proof {
        lemma_media_table(ext@);
    }
    if lower_eq(ext, "png") {
        Some("image/png")
    } else if lower_eq(ext, "jpg") || lower_eq(ext, "jpeg") || lower_eq(ext, "jfif") || lower_eq(
        ext,
        "pjp",
    ) {
        Some("image/jpeg")
    } else if lower_eq(ext, "webp") {
        Some("image/webp")
    } else if lower_eq(ext, "gif") {
        Some("image/gif")
    } else if lower_eq(ext, "bmp") {
        Some("image/bmp")
    } else if lower_eq(ext, "svg") || lower_eq(ext, "svgz") {
        Some("image/svg+xml")
    } else if lower_eq(ext, "heic") {
        Some("image/heic")
    } else if lower_eq(ext, "heif") {
        Some("image/heif")
    } else if lower_eq(ext, "tif") || lower_eq(ext, "tiff") {
        Some("image/tiff")
    } else if lower_eq(ext, "mp3") {
        Some("audio/mpeg")
    } else if lower_eq(ext, "aiff") {
        Some("audio/aiff")
    } else if lower_eq(ext, "wma") {
        Some("audio/x-ms-wma")
    } else if lower_eq(ext, "au") {
        Some("audio/basic")
    } else if lower_eq(ext, "mp4") {
        Some("video/mp4")
    } else if lower_eq(ext, "mov") {
        Some("video/quicktime")
    } else if lower_eq(ext, "avi") {
        Some("video/x-msvideo")
    } else if lower_eq(ext, "mkv") {
        Some("video/x-matroska")
    } else if lower_eq(ext, "wmv") {
        Some("video/x-ms-wmv")
    } else if lower_eq(ext, "flv") {
        Some("video/x-flv")
    } else if lower_eq(ext, "webm") {
        Some("video/webm")
    } else if lower_eq(ext, "mpeg") || lower_eq(ext, "mpg") {
        Some("video/mpeg")
    } else {
        None
    }
}

/// `mime` is a media type that `path` may have by its extension (`None`: refused): a type
/// the table gives some extension read after a `.` in `path`; none for a path without
/// `.` or whose file name only begins with `.`; and, for a path with a plain extension,
/// the type the table gives that extension.
pub open spec fn path_mime_fits(path: Seq<char>, mime: Option<Seq<char>>) -> bool {
    &&& (mime matches Some(m) ==> exists|e: Seq<char>|
        !e.contains('.') && follows_dot(path, e) && mime_of(e) == Some(m))
    &&& (!path.contains('.') ==> mime is None)
    &&& (dot_name(path) ==> mime is None)
    &&& (plain_extension(path) matches Some(e) ==> mime == mime_of(e))
}

/// The media type of the local file `path`, by the extension the platform's path rules
/// find in it; refused when it has none, or when its extension names no supported type.
pub fn mime_for_path(path: &str) -> (r: Result<&'static str, CliError>)
    ensures
        path_mime_fits(
            path@,
            match r {
                Ok(m) => Some(m@),
                Err(_) => None,
            },
        ),
        r matches Err(e) ==> e matches CliError::UnsupportedMediaExtension { path: p } && p@
            == path@,
{
    let ext = match file_extension(path) {
        Some(e) => e,
        None => {
            return Err(CliError::UnsupportedMediaExtension { path: path.to_owned() });
        },
    };
    match mime_for_extension(ext.as_str()) {
        Some(m) => Ok(m),
        None => Err(CliError::UnsupportedMediaExtension { path: path.to_owned() }),
    }
}

/// The data URL of a file whose contents are already base64 text.
pub fn data_url_from_encoded(mime: &str, encoded: &str) -> (r: String)
    ensures
        r@ == data_url_text(mime@, encoded@),
        is_remote(r@),
{
    let mut r = "data:".to_owned();
    r.append(mime);
    r.append(";base64,");
    r.append(encoded);
    proof {
        reveal_strlit("data:");
        assert("data:"@.is_prefix_of(r@)) by {
            assert(r@.subrange(0, 5) =~= "data:"@);
        }
    }
    r
}

/// The data URL of a file of type `mime` holding `bytes`.
pub fn file_to_data_url(mime: &str, bytes: &[u8]) -> (r: String)
    requires
        bytes@.len() / 3 * 4 + 4 <= usize::MAX,
    ensures
        r@ == data_url_text(mime@, base64_standard(bytes@)),
        is_remote(r@),
{
    let encoded = base64_encode(bytes);
    data_url_from_encoded(mime, encoded.as_str())
}

/// `r` uploads the data URL `data_url` to the storage service of `api`, as
/// `{"data_urls": [data_url]}`.
pub open spec fn is_upload_request(r: HttpRequest, api: ApiClient, data_url: Seq<char>) -> bool {
    &&& is_post_json(r, api, base_of(api.storage_url@) + "/upload-asset"@)
    &&& r.body matches Some(Json::Object(m)) && {
        &&& m@.len() == 1
        &&& m@[0].0@ == "data_urls"@
        &&& (m@[0].1 matches Json::Array(a) && a@.len() == 1 && (a@[0] matches Json::Str(d) && d@
            == data_url))
    }
}

impl ApiClient {
    /// The upload of one data URL to the storage service.
    pub fn upload_request(&self, data_url: String) -> (r: HttpRequest)
        ensures
            is_upload_request(r, *self, data_url@),
            r.body matches Some(Json::Object(m)) && (m@[0].1 matches Json::Array(a) && a@[0]
                == Json::Str(data_url)),
            r.body matches Some(b) && b.well_formed(),
    {
        let mut urls: Vec<Json> = Vec::new();
        urls.push(Json::Str(data_url));
        let mut m: Vec<(String, Json)> = Vec::new();
        m.push(("data_urls".to_owned(), Json::Array(urls)));
        let url = self.upload_url();
        let body = Json::Object(m);
        proof {
            let v = body->Object_0@[0].1;
            assert(v->Array_0@[0].well_formed());
            assert(v.well_formed());
            assert(distinct_keys(body->Object_0@));
        }
        self.post_json_request(url, body)
    }
}

/// The file URL the storage service gave for `path`; refused when its answer holds none.
pub fn uploaded_url_for(path: &str, response: &Json) -> (r: Result<String, CliError>)
    ensures
        r matches Ok(u) ==> uploaded_url(*response) == Some(u@),
        r is Err <==> uploaded_url(*response) is None,
        r matches Err(e) ==> e matches CliError::MissingUploadUrl { path: p } && p@ == path@,
{
    match first_uploaded_url(response) {
        Some(u) => Ok(u),
        None => Err(CliError::MissingUploadUrl { path: path.to_owned() }),
    }
}

/// Law: the media type of an extension does not depend on its ASCII case.
pub proof fn lemma_mime_ignores_case(ext: Seq<char>)
    ensures
        mime_of(lower_seq(ext)) == mime_of(ext),
{
    lemma_lower_idempotent(ext);
}

} // verus!
