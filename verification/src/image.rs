//! Pasted images: they are saved beside the document in `assets/` as
//! `img-<uuid>.<ext>`, and the document links them by a relative path so
//! that it can be moved together with its assets.
use vstd::prelude::*;
use crate::error::AppError;
use crate::fs_service::listed;
use crate::office::{lits, tag_views};
use crate::text::{ascii_lower, ascii_lower_chars, str_chars, string_from_chars};

verus! {

/// Image formats that can be pasted.
pub open spec fn image_exts() -> Seq<Seq<char>> {
    lits(seq!["png", "jpg", "jpeg", "gif", "webp", "svg", "bmp"])
}

fn image_exts_vec() -> (r: Vec<&'static str>)
    ensures
        tag_views(r@) == image_exts(),
{
    vec!["png", "jpg", "jpeg", "gif", "webp", "svg", "bmp"]
}

/// `s` without its leading dots.
pub open spec fn strip_dots(s: Seq<char>) -> Seq<char>
    decreases s.len(),
{
    if s.len() > 0 && s[0] == '.' {
        strip_dots(s.drop_first())
    } else {
        s
    }
}

/// An extension as given, normalised: leading dots dropped, ASCII letters
/// lower-cased.
pub open spec fn norm_ext(ext: Seq<char>) -> Seq<char> {
    ascii_lower(strip_dots(ext))
}

/// A lower-case hexadecimal digit.
pub open spec fn is_lower_hex(c: char) -> bool {
    ('0' <= c && c <= '9') || ('a' <= c && c <= 'f')
}

/// The file name of an image with identifier `id` and extension `ext`.
pub open spec fn image_file_name(id: Seq<char>, ext: Seq<char>) -> Seq<char> {
    "img-"@ + id + "."@ + ext
}

/// What `base64`'s `STANDARD` engine decodes from the bytes of `data`, or
/// the text of its `DecodeError`.
pub uninterp spec fn base64_decode(data: Seq<char>) -> Result<Seq<u8>, Seq<char>>;

/// `base64::engine::general_purpose::STANDARD.decode` of the text's bytes;
/// on failure, the `Display` text of the error. The contract ties the result
/// to `data` through [`base64_decode`].
#[verifier::external_body]
fn decode_base64(data: &str) -> (r: Result<Vec<u8>, String>)
    ensures
        match r {
            Ok(b) => base64_decode(data@) == Ok::<Seq<u8>, Seq<char>>(b@),
            Err(t) => base64_decode(data@) == Err::<Seq<u8>, Seq<char>>(t@),
        },
{
    match base64::Engine::decode(&base64::engine::general_purpose::STANDARD, data) {
        Ok(b) => Ok(b),
        Err(e) => Err(e.to_string()),
    }
}

/// `uuid::Uuid::new_v4().simple()` as text: a fresh random identifier,
/// written as 32 lower-case hex digits (which ones is left open).
#[verifier::external_body]
fn new_image_id() -> (r: String)
    ensures
        r@.len() == 32,
        forall|k: int| 0 <= k < 32 ==> is_lower_hex(#[trigger] r@[k]),
{
    uuid::Uuid::new_v4().simple().to_string()
}

/// What saving a pasted image writes and how the document links it: the
/// image's bytes, its file name in `assets/`, and the link.
pub struct ImageSave {
    pub bytes: Vec<u8>,
    pub file_name: String,
    pub rel_path: String,
}

/// The image file as it was written: its absolute path, the link relative
/// to the document (`./assets/<file name>`), and the file name.
pub struct SavedImage {
    pub abs_path: String,
    pub rel_path: String,
    pub file_name: String,
}

/// The error, if any, of saving pasted image data: an extension that is not
/// an image format, a document without a parent directory, data that is not
/// base64, and empty data, checked in that order.
pub open spec fn image_error(doc_has_parent: bool, data: Seq<char>, ext: Seq<char>, e: AppError) -> bool {
    if !image_exts().contains(norm_ext(ext)) {
        e matches AppError::Unsupported(m) && m@ == "不支持的图片格式: "@ + norm_ext(ext)
    } else if !doc_has_parent {
        e matches AppError::InvalidArg(m) && m@ == "文档没有父目录，请先保存文档"@
    } else {
        match base64_decode(data) {
            Err(t) => e matches AppError::InvalidArg(m) && m@ == "图片数据 Base64 解码失败: "@ + t,
            Ok(_) => e matches AppError::InvalidArg(m) && m@ == "图片数据为空"@,
        }
    }
}

/// Whether pasted image data can be saved.
pub open spec fn image_ok(doc_has_parent: bool, data: Seq<char>, ext: Seq<char>) -> bool {
    &&& image_exts().contains(norm_ext(ext))
    &&& doc_has_parent
    &&& base64_decode(data) is Ok
    &&& base64_decode(data)->Ok_0.len() > 0
}

/// `ext` normalised ([`norm_ext`]).
pub fn normalize_ext(ext: &str) -> (r: Vec<char>)
    ensures
        r@ == norm_ext(ext@),
{
    let v = str_chars(ext);
    let mut i: usize = 0;
    proof {
        assert(v@.skip(0) =~= v@);
    }
    while i < v.len() && v[i] == '.'
        invariant
            i <= v@.len(),
            strip_dots(v@.skip(i as int)) == strip_dots(ext@),
            v@ == ext@,
        decreases v@.len() - i,
    {
        proof {
            assert(v@.skip(i as int).drop_first() =~= v@.skip(i + 1));
        }
        i = i + 1;
    }
    proof {
        if i < v@.len() {
            assert(v@.skip(i as int)[0] == v@[i as int]);
        }
        assert(v@.skip(i as int) =~= v@.subrange(i as int, v@.len() as int));
    }
    let rest = crate::text::slice_range(v.as_slice(), i, v.len());
    ascii_lower_chars(rest.as_slice())
}

/// A pasted image in PNG, JPEG (`jpg` or `jpeg`), GIF, WebP, SVG or BMP
/// format (after leading dots are dropped and letters lower-cased) is
/// saved, whenever the document has a folder and the data decodes to some
/// bytes.
pub proof fn lemma_image_formats_accepted(doc_has_parent: bool, data: Seq<char>, ext: Seq<char>)
    requires
        doc_has_parent,
        base64_decode(data) is Ok,
        base64_decode(data)->Ok_0.len() > 0,
        norm_ext(ext) == "png"@ || norm_ext(ext) == "jpg"@ || norm_ext(ext) == "jpeg"@ || norm_ext(ext) == "gif"@
            || norm_ext(ext) == "webp"@ || norm_ext(ext) == "svg"@ || norm_ext(ext) == "bmp"@,
    ensures
        image_ok(doc_has_parent, data, ext),
{
    let x = norm_ext(ext);
    let l = image_exts();
    if x == "png"@ {
        assert(l[0] == x);
    } else if x == "jpg"@ {
        assert(l[1] == x);
    } else if x == "jpeg"@ {
        assert(l[2] == x);
    } else if x == "gif"@ {
        assert(l[3] == x);
    } else if x == "webp"@ {
        assert(l[4] == x);
    } else if x == "svg"@ {
        assert(l[5] == x);
    } else {
        assert(l[6] == x);
    }
}

/// Plans saving pasted image data (`data_base64`, extension `ext`) for a
/// document, with the identifier `id` in the file name.
pub fn plan_image_with_id(doc_has_parent: bool, data_base64: &str, ext: &str, id: &str) -> (r: Result<ImageSave, AppError>)
    ensures
        r is Ok <==> image_ok(doc_has_parent, data_base64@, ext@),
        r matches Err(e) ==> image_error(doc_has_parent, data_base64@, ext@, e),
        r matches Ok(p) ==> {
            &&& p.bytes@ == base64_decode(data_base64@)->Ok_0
            &&& p.file_name@ == image_file_name(id@, norm_ext(ext@))
            &&& p.rel_path@ == "./assets/"@ + p.file_name@
        },
{
    let e = normalize_ext(ext);
    let es = string_from_chars(e.as_slice());
    if !listed(e.as_slice(), &image_exts_vec()) {
        return Err(AppError::Unsupported(String::from_str("不支持的图片格式: ").concat(es.as_str())));
    }
    if !doc_has_parent {
        return Err(AppError::InvalidArg(String::from_str("文档没有父目录，请先保存文档")));
    }
    let bytes = match decode_base64(data_base64) {
        Ok(b) => b,
        Err(t) => {
            return Err(AppError::InvalidArg(String::from_str("图片数据 Base64 解码失败: ").concat(t.as_str())));
        },
    };
    if bytes.len() == 0 {
        return Err(AppError::InvalidArg(String::from_str("图片数据为空")));
    }
    let file_name = String::from_str("img-").concat(id).concat(".").concat(es.as_str());
    let rel_path = String::from_str("./assets/").concat(file_name.as_str());
    Ok(ImageSave { bytes, file_name, rel_path })
}

/// Plans saving pasted image data with a fresh random identifier: as
/// [`plan_image_with_id`], the identifier being 32 lower-case hex digits.
pub fn plan_pasted_image(doc_has_parent: bool, data_base64: &str, ext: &str) -> (r: Result<ImageSave, AppError>)
    ensures
        r is Ok <==> image_ok(doc_has_parent, data_base64@, ext@),
        r matches Err(e) ==> image_error(doc_has_parent, data_base64@, ext@, e),
        r matches Ok(p) ==> {
            &&& p.bytes@ == base64_decode(data_base64@)->Ok_0
            &&& exists|id: Seq<char>|
                id.len() == 32 && (forall|k: int| 0 <= k < 32 ==> is_lower_hex(#[trigger] id[k]))
                    && p.file_name@ == image_file_name(id, norm_ext(ext@))
            &&& p.rel_path@ == "./assets/"@ + p.file_name@
        },
{
    let id = new_image_id();
    let r = plan_image_with_id(doc_has_parent, data_base64, ext, id.as_str());
    proof {
        if r is Ok {
            assert(id@.len() == 32 && (forall|k: int| 0 <= k < 32 ==> is_lower_hex(#[trigger] id@[k])));
        }
    }
    r
}

/// The record of a saved image at `abs_path`.
pub fn saved_image(abs_path: String, plan: &ImageSave) -> (r: SavedImage)
    ensures
        r.abs_path@ == abs_path@,
        r.rel_path@ == plan.rel_path@,
        r.file_name@ == plan.file_name@,
{
    SavedImage { abs_path, rel_path: plan.rel_path.clone(), file_name: plan.file_name.clone() }
}

} // verus!
