//! The guards and small rules of the application's commands: which
//! command-line arguments are files to open, which links may be opened,
//! default names, and the conditions commands test before touching the
//! file system.
use vstd::prelude::*;
use crate::error::AppError;
use crate::fs_service::{MAX_TEXT_BYTES, check_text_size};
use crate::paths::{extension, extension_of, file_stem, file_stem_of};
use crate::text::{chars_starts_with, lowercase, starts_with, str_chars, str_to_lowercase, string_from_chars};

verus! {

pub open spec fn str_views(v: Seq<String>) -> Seq<Seq<char>> {
    v.map_values(|s: String| s@)
}

/// Whether a command-line argument is a switch.
pub open spec fn is_switch(a: Seq<char>) -> bool {
    a.len() > 0 && a[0] == '-'
}

/// The arguments from position `i` on that name files: not switches, and
/// existing files (`is_file`).
pub open spec fn file_args(argv: Seq<Seq<char>>, is_file: Seq<bool>, i: nat) -> Seq<Seq<char>>
    decreases argv.len() - i,
{
    if i >= argv.len() {
        seq![]
    } else if !is_switch(argv[i as int]) && is_file[i as int] {
        seq![argv[i as int]] + file_args(argv, is_file, i + 1)
    } else {
        file_args(argv, is_file, i + 1)
    }
}

/// The files a launch asks to open ("open with", double click): the
/// arguments after the program name that are not switches and are existing
/// files (`is_file[i]` tells whether `argv[i]` is one), in order.
pub fn collect_file_args(argv: &Vec<String>, is_file: &Vec<bool>) -> (r: Vec<String>)
    requires
        is_file@.len() == argv@.len(),
    ensures
        str_views(r@) == file_args(str_views(argv@), is_file@, 1),
{
    let ghost av = str_views(argv@);
    let mut out: Vec<String> = Vec::new();
    let mut i: usize = 1;
    proof {
        assert(str_views(out@) + file_args(av, is_file@, 1) =~= file_args(av, is_file@, 1));
    }
    while i < argv.len()
        invariant
            1 <= i,
            i <= argv@.len() || argv@.len() == 0,
            is_file@.len() == argv@.len(),
            av == str_views(argv@),
            str_views(out@) + file_args(av, is_file@, i as nat) == file_args(av, is_file@, 1),
        decreases argv@.len() - i,
    {
        let a = &argv[i];
        let v = str_chars(a.as_str());
        let switch = v.len() > 0 && v[0] == '-';
        if !switch && is_file[i] {
            let ghost before = str_views(out@);
            out.push(a.clone());
            proof {
                assert(str_views(out@) =~= before.push(a@));
                assert(before.push(a@) + file_args(av, is_file@, (i + 1) as nat) =~= before + (seq![av[i as int]]
                    + file_args(av, is_file@, (i + 1) as nat)));
            }
        }
        i = i + 1;
    }
    proof {
        assert(file_args(av, is_file@, i as nat) =~= Seq::<Seq<char>>::empty());
    }
    assert(str_views(out@) =~= file_args(av, is_file@, 1));
    out
}

/// Whether a link may be opened in the system browser or mail program:
/// its lower-case form starts with `http://`, `https://` or `mailto:`.
pub open spec fn url_allowed(url: Seq<char>) -> bool {
    starts_with(lowercase(url), "http://"@) || starts_with(lowercase(url), "https://"@) || starts_with(
        lowercase(url),
        "mailto:"@,
    )
}

/// Guard run before opening a link: only http, https and mailto links.
pub fn check_url(url: &str) -> (r: Result<(), AppError>)
    ensures
        r is Ok <==> url_allowed(url@),
        r matches Err(e) ==> e matches AppError::InvalidArg(m) && m@ == "仅支持 http/https/mailto 链接: "@ + url@,
{
    let lower = str_to_lowercase(url);
    let lv = str_chars(lower.as_str());
    let http = str_chars("http://");
    let https = str_chars("https://");
    let mailto = str_chars("mailto:");
    if chars_starts_with(lv.as_slice(), http.as_slice()) || chars_starts_with(lv.as_slice(), https.as_slice())
        || chars_starts_with(lv.as_slice(), mailto.as_slice()) {
        Ok(())
    } else {
        Err(AppError::InvalidArg(String::from_str("仅支持 http/https/mailto 链接: ").concat(url)))
    }
}

/// The name an export is offered under: the document's file stem with the
/// export's extension, or `export.<ext>` when the document has no stem.
pub open spec fn export_name(doc_path: Seq<char>, ext: Seq<char>) -> Seq<char> {
    match file_stem(doc_path) {
        Some(s) => s + "."@ + ext,
        None => "export."@ + ext,
    }
}

/// The default file name of an export of the document at `doc_path`.
pub fn default_export_name(doc_path: &str, ext: &str) -> (r: String)
    ensures
        r@ == export_name(doc_path@, ext@),
{
    match file_stem_of(doc_path) {
        Some(s) => string_from_chars(s.as_slice()).concat(".").concat(ext),
        None => String::from_str("export.").concat(ext),
    }
}

/// Whether a path chosen in a save dialog has no extension, so that the
/// default one is added.
pub fn lacks_extension(path: &str) -> (r: bool)
    ensures
        r == (extension(path@) is None),
{
    extension_of(path).is_none()
}

/// Guard run before reading a file into the editor: it is a file, and not
/// larger than [`MAX_TEXT_BYTES`].
pub fn check_readable(path: &str, is_file: bool, len: u64) -> (r: Result<(), AppError>)
    ensures
        r is Ok <==> is_file && len <= MAX_TEXT_BYTES,
        r matches Err(e) ==> if !is_file {
            e matches AppError::NotFound(m) && m@ == "文件不存在: "@ + path@
        } else {
            e matches AppError::Unsupported(m) && m@ == "文件过大（"@ + crate::num::decimal(len as nat) + " 字节，上限 "@
                + crate::num::decimal(MAX_TEXT_BYTES as nat) + " 字节）：请用系统默认程序打开"@
        },
{
    if !is_file {
        return Err(AppError::NotFound(String::from_str("文件不存在: ").concat(path)));
    }
    check_text_size(len)
}

/// Guard run before handing a path to the system's default program: it
/// exists.
pub fn check_exists(path: &str, exists: bool) -> (r: Result<(), AppError>)
    ensures
        r is Ok <==> exists,
        r matches Err(e) ==> e matches AppError::NotFound(m) && m@ == "路径不存在: "@ + path@,
{
    if exists {
        Ok(())
    } else {
        Err(AppError::NotFound(String::from_str("路径不存在: ").concat(path)))
    }
}

/// Guard run before authorising a directory: it is one.
pub fn check_dir(dir: &str, is_dir: bool) -> (r: Result<(), AppError>)
    ensures
        r is Ok <==> is_dir,
        r matches Err(e) ==> e matches AppError::NotFound(m) && m@ == "目录不存在: "@ + dir@,
{
    if is_dir {
        Ok(())
    } else {
        Err(AppError::NotFound(String::from_str("目录不存在: ").concat(dir)))
    }
}

/// Guard run before pasting an image: the document has been saved (has a
/// path).
pub fn check_image_doc(doc_path: &str) -> (r: Result<(), AppError>)
    ensures
        r is Ok <==> doc_path@.len() > 0,
        r matches Err(e) ==> e matches AppError::InvalidArg(m) && m@ == "请先保存文档后再粘贴图片"@,
{
    if doc_path.is_empty() {
        Err(AppError::InvalidArg(String::from_str("请先保存文档后再粘贴图片")))
    } else {
        Ok(())
    }
}

/// Guard run before an atomic write: the target has a parent directory to
/// hold the temporary file.
pub fn check_parent(path: &str, has_parent: bool) -> (r: Result<(), AppError>)
    ensures
        r is Ok <==> has_parent,
        r matches Err(e) ==> e matches AppError::InvalidArg(m) && m@ == "路径没有父目录: "@ + path@,
{
    if has_parent {
        Ok(())
    } else {
        Err(AppError::InvalidArg(String::from_str("路径没有父目录: ").concat(path)))
    }
}

} // verus!
