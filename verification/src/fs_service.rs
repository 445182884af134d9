//! Text files: encoding detection on read, the bytes written on save, and
//! the rules that decide whether a file opens in the editor, in an in-app
//! preview, or in the system's default program.
use vstd::prelude::*;
use vstd::utf8::{decode_utf8, valid_utf8, encode_utf8};
use crate::error::AppError;
use crate::office::{lits, tag_views};
use crate::paths::{extension, extension_of, file_name, file_name_of};
use crate::text::{
    chars_eq, lowercase, str_chars, str_from_utf8, str_to_lowercase, string_from_chars,
};

verus! {

/// Text decoded from a file, with what was learnt of its encoding.
pub struct DetectedText {
    pub content: String,
    /// "utf-8" | "utf-8-bom" | "utf-16le" | "utf-16be" | a guessed encoding name
    pub encoding: String,
    pub had_bom: bool,
    /// Whether the content can be written back as UTF-8 without loss.
    pub is_utf8: bool,
}

/// The decoding `encoding_rs` gives: for the encoding with label `label`,
/// `Encoding::decode` of the bytes (text, whether malformed sequences were
/// replaced); nothing when no encoding has that label.
pub uninterp spec fn label_decode(label: Seq<char>, bytes: Seq<u8>) -> Option<(Seq<char>, bool)>;

/// The name of the encoding `chardetng` guesses after `feed(bytes, last)`
/// and `guess(None, false)`.
pub uninterp spec fn chardet_guess(bytes: Seq<u8>, last: bool) -> Seq<char>;

pub open spec fn starts_bytes(b: Seq<u8>, p: Seq<u8>) -> bool {
    p.len() <= b.len() && b.subrange(0, p.len() as int) == p
}

pub open spec fn utf8_bom() -> Seq<u8> {
    seq![0xEFu8, 0xBBu8, 0xBFu8]
}

/// `Encoding::for_label(label)` and its `decode`: the text and whether
/// malformed sequences were replaced, or nothing when the label is unknown.
/// Besides the name, it states two facts of the crate's source: the three
/// Unicode labels used here are known, and UTF-8 input that is valid and
/// does not start with a byte order mark decodes to itself without
/// replacement.
#[verifier::external_body]
fn decode_by_label(label: &str, bytes: &[u8]) -> (r: Option<(String, bool)>)
    ensures
        r is Some <==> label_decode(label@, bytes@) is Some,
        r is Some ==> label_decode(label@, bytes@) == Some(pair_view(r->0)),
        (label@ == "utf-8"@ || label@ == "utf-16le"@ || label@ == "utf-16be"@) ==> r is Some,
        (label@ == "utf-8"@ && valid_utf8(bytes@) && !starts_bytes(bytes@, utf8_bom())) ==> r is Some && pair_view(r->0) == (decode_utf8(bytes@), false),
{
    match encoding_rs::Encoding::for_label(label.as_bytes()) {
        Some(enc) => {
            let (cow, _, malformed) = enc.decode(bytes);
            Some((cow.into_owned(), malformed))
        },
        None => None,
    }
}

/// `chardetng::EncodingDetector`: `new`, `feed(bytes, last)`, then
/// `guess(None, false)`; the name of the guessed encoding.
#[verifier::external_body]
fn guess_encoding(bytes: &[u8], last: bool) -> (r: String)
    ensures
        r@ == chardet_guess(bytes@, last),
{
    let mut det = chardetng::EncodingDetector::new();
    det.feed(bytes, last);
    det.guess(None, false).name().to_string()
}

pub open spec fn pair_view(p: (String, bool)) -> (Seq<char>, bool) {
    (p.0@, p.1)
}

/// The view of a detection: content, encoding, BOM seen, UTF-8 writable.
pub open spec fn detected(d: DetectedText) -> (Seq<char>, Seq<char>, bool, bool) {
    (d.content@, d.encoding@, d.had_bom, d.is_utf8)
}

pub open spec fn decoded_or_lossy(label: Seq<char>, b: Seq<u8>) -> Seq<char> {
    match label_decode(label, b) {
        Some((t, _)) => t,
        None => crate::office::utf8_lossy(b),
    }
}

/// Encoding detection of a file's bytes: a UTF-8 or UTF-16 byte order mark
/// decides at once; otherwise valid UTF-8 is taken as UTF-8; otherwise
/// `chardetng` guesses the encoding (GBK and the like) and the text is
/// decoded with it.
pub open spec fn detect_spec(b: Seq<u8>) -> (Seq<char>, Seq<char>, bool, bool) {
    if starts_bytes(b, utf8_bom()) {
        (decoded_or_lossy("utf-8"@, b.skip(3)), "utf-8-bom"@, true, true)
    } else if starts_bytes(b, seq![0xFFu8, 0xFEu8]) {
        (decoded_or_lossy("utf-16le"@, b.skip(2)), "utf-16le"@, true, false)
    } else if starts_bytes(b, seq![0xFEu8, 0xFFu8]) {
        (decoded_or_lossy("utf-16be"@, b.skip(2)), "utf-16be"@, true, false)
    } else if valid_utf8(b) {
        (decode_utf8(b), "utf-8"@, false, true)
    } else {
        (decoded_or_lossy(chardet_guess(b, true), b), chardet_guess(b, true), false, false)
    }
}

fn skip_bytes(b: &[u8], n: usize) -> (r: Vec<u8>)
    requires
        n <= b@.len(),
    ensures
        r@ == b@.skip(n as int),
{
    let mut out: Vec<u8> = Vec::new();
    let mut i = n;
    while i < b.len()
        invariant
            n <= i <= b@.len(),
            out@ == b@.subrange(n as int, i as int),
        decreases b@.len() - i,
    {
        out.push(b[i]);
        i = i + 1;
        assert(out@ =~= b@.subrange(n as int, i as int));
    }
    assert(b@.subrange(n as int, b@.len() as int) =~= b@.skip(n as int));
    out
}

fn starts_with_bytes(b: &[u8], p0: u8, p1: u8) -> (r: bool)
    ensures
        r == starts_bytes(b@, seq![p0, p1]),
{
    let r = b.len() >= 2 && b[0] == p0 && b[1] == p1;
    proof {
        if b@.len() >= 2 {
            if r {
                assert(b@.subrange(0, 2) =~= seq![p0, p1]);
            } else {
                assert(b@.subrange(0, 2)[0] == b@[0] && b@.subrange(0, 2)[1] == b@[1]);
            }
        }
    }
    r
}

fn starts_with_bom(b: &[u8]) -> (r: bool)
    ensures
        r == starts_bytes(b@, utf8_bom()),
{
    let r = b.len() >= 3 && b[0] == 0xEF && b[1] == 0xBB && b[2] == 0xBF;
    proof {
        if b@.len() >= 3 {
            if r {
                assert(b@.subrange(0, 3) =~= utf8_bom());
            } else {
                let s = b@.subrange(0, 3);
                assert(s[0] == b@[0] && s[1] == b@[1] && s[2] == b@[2]);
            }
        }
    }
    r
}

fn decode_or_lossy(label: &str, b: &[u8]) -> (r: String)
    ensures
        r@ == decoded_or_lossy(label@, b@),
        (label@ == "utf-8"@ && valid_utf8(b@) && !starts_bytes(b@, utf8_bom())) ==> r@ == decode_utf8(b@),
{
    match decode_by_label(label, b) {
        Some((t, _)) => t,
        None => crate::office::lossy_text(b),
    }
}

/// Decodes a text file's bytes (see [`detect_spec`]).
///
/// Saving then reading gives the text back: bytes that a save of `c` wrote
/// (see [`save_bytes`]) are detected as `c`, as "utf-8-bom" when a byte
/// order mark was kept and as "utf-8" otherwise. Content that itself
/// starts with U+FEFF is left out: its first character reads as a byte
/// order mark.
pub fn detect_text(bytes: &[u8]) -> (r: DetectedText)
    ensures
        detected(r) == detect_spec(bytes@),
        forall|c: Seq<char>, keep_bom: bool|
            #[trigger] save_bytes(c, keep_bom) == bytes@ && (c.len() == 0 || c[0] != '\u{FEFF}')
            ==> detected(r) == (c, if keep_bom { "utf-8-bom"@ } else { "utf-8"@ }, keep_bom, true),
{
    proof {
        broadcast use vstd::utf8::encode_utf8_valid_utf8, vstd::utf8::encode_utf8_decode_utf8;
        assert forall|c: Seq<char>, keep_bom: bool|
            #[trigger] save_bytes(c, keep_bom) == bytes@ && (c.len() == 0 || c[0] != '\u{FEFF}') implies
            (keep_bom <==> starts_bytes(bytes@, utf8_bom()))
            && (keep_bom ==> bytes@.skip(3) == encode_utf8(c))
            && (!keep_bom ==> bytes@ == encode_utf8(c)) by {
            lemma_encoded_prefix(c);
            if keep_bom {
                assert(bytes@.subrange(0, 3) =~= utf8_bom());
                assert(bytes@.skip(3) =~= encode_utf8(c));
            }
        }
    }
    if starts_with_bom(bytes) {
        let rest = skip_bytes(bytes, 3);
        proof {
            reveal_strlit("utf-8");
            assert forall|c: Seq<char>, keep_bom: bool|
                #[trigger] save_bytes(c, keep_bom) == bytes@ && (c.len() == 0 || c[0] != '\u{FEFF}') implies
                !starts_bytes(rest@, utf8_bom()) && valid_utf8(rest@) && decode_utf8(rest@) == c by {
                lemma_encoded_prefix(c);
            }
        }
        return DetectedText {
            content: decode_or_lossy("utf-8", rest.as_slice()),
            encoding: String::from_str("utf-8-bom"),
            had_bom: true,
            is_utf8: true,
        };
    }
    if starts_with_bytes(bytes, 0xFF, 0xFE) {
        let rest = skip_bytes(bytes, 2);
        return DetectedText {
            content: decode_or_lossy("utf-16le", rest.as_slice()),
            encoding: String::from_str("utf-16le"),
            had_bom: true,
            is_utf8: false,
        };
    }
    if starts_with_bytes(bytes, 0xFE, 0xFF) {
        let rest = skip_bytes(bytes, 2);
        return DetectedText {
            content: decode_or_lossy("utf-16be", rest.as_slice()),
            encoding: String::from_str("utf-16be"),
            had_bom: true,
            is_utf8: false,
        };
    }
    proof {
        reveal_strlit("utf-8");
        assert forall|c: Seq<char>, keep_bom: bool|
            #[trigger] save_bytes(c, keep_bom) == bytes@ && (c.len() == 0 || c[0] != '\u{FEFF}') implies
            !keep_bom && valid_utf8(bytes@) && decode_utf8(bytes@) == c by {
            lemma_encoded_prefix(c);
        }
    }
    match str_from_utf8(bytes) {
        Some(s) => DetectedText {
            content: s,
            encoding: String::from_str("utf-8"),
            had_bom: false,
            is_utf8: true,
        },
        None => {
            let name = guess_encoding(bytes, true);
            let content = decode_or_lossy(name.as_str(), bytes);
            DetectedText { content, encoding: name, had_bom: false, is_utf8: false }
        },
    }
}

/// The bytes a save writes: the UTF-8 byte order mark when asked for, then
/// the content in UTF-8.
pub open spec fn save_bytes(content: Seq<char>, keep_bom: bool) -> Seq<u8> {
    if keep_bom { utf8_bom() + encode_utf8(content) } else { encode_utf8(content) }
}

/// The bytes to write for `content`, with a UTF-8 byte order mark first
/// when `keep_bom` holds.
pub fn encode_for_write(content: &str, keep_bom: bool) -> (r: Vec<u8>)
    ensures
        r@ == save_bytes(content@, keep_bom),
{
    let mut out: Vec<u8> = Vec::new();
    if keep_bom {
        out.push(0xEF);
        out.push(0xBB);
        out.push(0xBF);
    }
    let b = content.as_bytes();
    let mut i: usize = 0;
    let ghost o = out@;
    while i < b.len()
        invariant
            i <= b@.len(),
            out@ == o + b@.take(i as int),
        decreases b@.len() - i,
    {
        out.push(b[i]);
        i = i + 1;
        assert(out@ =~= o + b@.take(i as int));
    }
    assert(b@.take(b@.len() as int) =~= b@);
    proof {
        if keep_bom {
            assert(o =~= utf8_bom());
        } else {
            assert(o =~= Seq::<u8>::empty());
            assert(out@ =~= b@);
        }
    }
    out
}

proof fn lemma_first_byte(v: u32)
    requires
        vstd::utf8::is_scalar(v),
    ensures
        ({
            let e = vstd::utf8::encode_scalar(v);
            &&& e.len() >= 1
            &&& e[0] != 0xFF && e[0] != 0xFE
            &&& (e.len() >= 3 && e[0] == 0xEF && e[1] == 0xBB && e[2] == 0xBF) ==> v == 0xFEFF
            &&& e[0] == 0xEF ==> e.len() == 3
        }),
{
    let e = vstd::utf8::encode_scalar(v);
    if vstd::utf8::has_width_1_encoding(v) {
        assert(((v & 0x7F) as u8) < 0x80) by (bit_vector);
    } else if vstd::utf8::has_width_2_encoding(v) {
        assert((0xC0u8 | ((v >> 6) & 0x1F) as u8) >= 0xC0 && (0xC0u8 | ((v >> 6) & 0x1F) as u8) <= 0xDF) by (bit_vector);
    } else if vstd::utf8::has_width_3_encoding(v) {
        assert((0xE0u8 | ((v >> 12) & 0x0F) as u8) >= 0xE0 && (0xE0u8 | ((v >> 12) & 0x0F) as u8) <= 0xEF) by (bit_vector);
        assert(0x800 <= v <= 0xFFFF && (0xE0u8 | ((v >> 12) & 0x0F) as u8) == 0xEF && (0x80u8 | ((v >> 6) & 0x3F) as u8) == 0xBB
            && (0x80u8 | (v & 0x3F) as u8) == 0xBF ==> v == 0xFEFF) by (bit_vector);
    } else {
        assert((0xF0u8 | ((v >> 18) & 0x7) as u8) >= 0xF0 && (0xF0u8 | ((v >> 18) & 0x7) as u8) <= 0xF7) by (bit_vector);
    }
}

proof fn lemma_encoded_prefix(c: Seq<char>)
    requires
        c.len() == 0 || c[0] != '\u{FEFF}',
    ensures
        !starts_bytes(encode_utf8(c), utf8_bom()),
        !starts_bytes(encode_utf8(c), seq![0xFFu8, 0xFEu8]),
        !starts_bytes(encode_utf8(c), seq![0xFEu8, 0xFFu8]),
{
    if c.len() > 0 {
        let v = c[0] as u32;
        vstd::utf8::char_is_scalar(c[0]);
        lemma_first_byte(v);
        let e = vstd::utf8::encode_scalar(v);
        let all = encode_utf8(c);
        assert(all == e + encode_utf8(c.drop_first()));
        assert(all[0] == e[0]);
        if starts_bytes(all, utf8_bom()) {
            assert(all.subrange(0, 3)[0] == all[0]);
            assert(e[0] == 0xEF);
            assert(all[1] == e[1] && all[2] == e[2]);
            assert(all.subrange(0, 3)[1] == all[1] && all.subrange(0, 3)[2] == all[2]);
            assert(v == 0xFEFF);
            vstd::utf8::char_u32_cast(c[0], v);
            assert(c[0] == '\u{FEFF}');
        }
        if starts_bytes(all, seq![0xFFu8, 0xFEu8]) {
            assert(all.subrange(0, 2)[0] == all[0]);
        }
        if starts_bytes(all, seq![0xFEu8, 0xFFu8]) {
            assert(all.subrange(0, 2)[0] == all[0]);
        }
    }
}

/// Extensions that are plain text: they open in the editor without sniffing.
pub open spec fn text_exts() -> Seq<Seq<char>> {
    lits(seq![
        "md", "markdown", "mdx", "txt", "text", "log", "csv", "tsv", "json", "jsonc", "json5", "yml",
        "yaml", "toml", "ini", "cfg", "conf", "properties", "env", "xml", "xsd", "xsl", "html", "htm",
        "css", "scss", "less", "sass", "js", "mjs", "cjs", "ts", "tsx", "jsx", "vue", "svelte", "rs",
        "py", "rb", "go", "java", "sql", "sh", "bat", "ps1", "gitignore",
    ])
}

fn text_exts_vec() -> (r: Vec<&'static str>)
    ensures
        tag_views(r@) == text_exts(),
{
    vec![
        "md", "markdown", "mdx", "txt", "text", "log", "csv", "tsv", "json", "jsonc", "json5", "yml",
        "yaml", "toml", "ini", "cfg", "conf", "properties", "env", "xml", "xsd", "xsl", "html", "htm",
        "css", "scss", "less", "sass", "js", "mjs", "cjs", "ts", "tsx", "jsx", "vue", "svelte", "rs",
        "py", "rb", "go", "java", "sql", "sh", "bat", "ps1", "gitignore",
    ]
}

/// Extensions that are not text: they go to the system's default program
/// without reading the file.
pub open spec fn binary_exts() -> Seq<Seq<char>> {
    lits(seq![
        "doc", "docx", "dot", "dotx", "docm", "xls", "xlsx", "xlsm", "xlsb", "ppt", "pptx", "pps",
        "ppsx", "pdf", "rtf", "odt", "ods", "odp", "wps", "et", "dps", "png", "jpg", "jpeg", "gif",
        "bmp", "ico", "webp", "tif", "tiff", "emf", "wmf", "heic", "psd", "ttf", "otf", "woff",
        "woff2", "eot", "mp3", "wav", "ogg", "flac", "mp4", "avi", "mov", "mkv", "wmv", "flv", "zip",
        "rar", "7z", "tar", "gz", "bz2", "xz", "iso", "exe", "msi", "dll", "so", "dylib", "class",
        "jar", "node", "pyc", "o", "obj", "lib", "wasm", "db", "sqlite", "sqlite3", "dat", "bin",
        "pdb", "drawio",
    ])
}

fn binary_exts_vec() -> (r: Vec<&'static str>)
    ensures
        tag_views(r@) == binary_exts(),
{
    vec![
        "doc", "docx", "dot", "dotx", "docm", "xls", "xlsx", "xlsm", "xlsb", "ppt", "pptx", "pps",
        "ppsx", "pdf", "rtf", "odt", "ods", "odp", "wps", "et", "dps", "png", "jpg", "jpeg", "gif",
        "bmp", "ico", "webp", "tif", "tiff", "emf", "wmf", "heic", "psd", "ttf", "otf", "woff",
        "woff2", "eot", "mp3", "wav", "ogg", "flac", "mp4", "avi", "mov", "mkv", "wmv", "flv", "zip",
        "rar", "7z", "tar", "gz", "bz2", "xz", "iso", "exe", "msi", "dll", "so", "dylib", "class",
        "jar", "node", "pyc", "o", "obj", "lib", "wasm", "db", "sqlite", "sqlite3", "dat", "bin",
        "pdb", "drawio",
    ]
}

/// File names without extension that are text.
pub open spec fn text_names() -> Seq<Seq<char>> {
    lits(seq!["makefile", "dockerfile", "license", "readme", "changelog", "authors", "copying"])
}

fn text_names_vec() -> (r: Vec<&'static str>)
    ensures
        tag_views(r@) == text_names(),
{
    vec!["makefile", "dockerfile", "license", "readme", "changelog", "authors", "copying"]
}

/// Whether `v` is one of the texts in `list`.
pub fn listed(v: &[char], list: &Vec<&'static str>) -> (r: bool)
    ensures
        r == tag_views(list@).contains(v@),
{
    let mut k: usize = 0;
    while k < list.len()
        invariant
            k <= list@.len(),
            forall|m: int| 0 <= m < k ==> list@[m]@ != v@,
        decreases list@.len() - k,
    {
        let l = str_chars(list[k]);
        if chars_eq(v, l.as_slice()) {
            assert(tag_views(list@)[k as int] == v@);
            return true;
        }
        k = k + 1;
    }
    proof {
        if tag_views(list@).contains(v@) {
            let m = choose|m: int| 0 <= m < list@.len() && tag_views(list@)[m] == v@;
            assert(list@[m]@ == v@);
        }
    }
    false
}

/// Above this size a file never opens as text (8 MiB).
pub const MAX_TEXT_BYTES: u64 = 8388608;

/// How much of a file the content sniff reads (8 KiB).
pub const SNIFF_BYTES: usize = 8192;

/// What the file's name and size decide about opening it as text.
#[derive(Debug, Clone, Copy, PartialEq, Eq)]
pub enum TextDecision {
    Text,
    NotText,
    /// The name decides nothing: sniff the first [`SNIFF_BYTES`] bytes.
    Sniff,
}

/// The decision on opening a file as text, from its path, whether it is a
/// regular file and its size: not a regular file or over
/// [`MAX_TEXT_BYTES`] → not text; an extension (lower case) on the binary
/// list → not text, on the text list → text; no extension and a name
/// (lower case) on the text-name list → text; anything else → sniff.
pub open spec fn text_decision_spec(path: Seq<char>, is_file: bool, len: u64) -> TextDecision {
    if !is_file || len > MAX_TEXT_BYTES {
        TextDecision::NotText
    } else {
        match extension(path) {
            Some(e) => if binary_exts().contains(lowercase(e)) {
                TextDecision::NotText
            } else if text_exts().contains(lowercase(e)) {
                TextDecision::Text
            } else {
                TextDecision::Sniff
            },
            None => {
                let name = match file_name(path) { Some(n) => n, None => seq![] };
                if text_names().contains(lowercase(name)) { TextDecision::Text } else { TextDecision::Sniff }
            },
        }
    }
}

/// The name-and-size part of deciding whether a file opens as text (see
/// [`text_decision_spec`]); reads nothing.
pub fn text_decision(path: &str, is_file: bool, len: u64) -> (r: TextDecision)
    ensures
        r == text_decision_spec(path@, is_file, len),
{
    if !is_file || len > MAX_TEXT_BYTES {
        return TextDecision::NotText;
    }
    match extension_of(path) {
        Some(e) => {
            let es = string_from_chars(e.as_slice());
            let lower = str_chars(str_to_lowercase(es.as_str()).as_str());
            if listed(lower.as_slice(), &binary_exts_vec()) {
                TextDecision::NotText
            } else if listed(lower.as_slice(), &text_exts_vec()) {
                TextDecision::Text
            } else {
                TextDecision::Sniff
            }
        },
        None => {
            let name = match file_name_of(path) {
                Some(n) => n,
                None => Vec::new(),
            };
            assert(name@ == (match file_name(path@) { Some(n) => n, None => seq![] }));
            let ns = string_from_chars(name.as_slice());
            let lower = str_chars(str_to_lowercase(ns.as_str()).as_str());
            if listed(lower.as_slice(), &text_names_vec()) {
                TextDecision::Text
            } else {
                TextDecision::Sniff
            }
        },
    }
}

/// A regular file within the size limit whose extension (any letter case)
/// names an Office, PDF, image, audio, video, archive, executable, font or
/// database format (`doc`, `docx`, `dot`, `dotx`, `docm`, `xls`, `xlsx`,
/// `xlsm`, `xlsb`, `ppt`, `pptx`, `pps`, `ppsx`, `pdf`, `rtf`, `odt`,
/// `ods`, `odp`, `wps`, `et`, `dps`, `png`, `jpg`, `jpeg`, `gif`, `bmp`,
/// `ico`, `webp`, `tif`, `tiff`, `emf`, `wmf`, `heic`, `psd`, `ttf`, `otf`,
/// `woff`, `woff2`, `eot`, `mp3`, `wav`, `ogg`, `flac`, `mp4`, `avi`, `mov`,
/// `mkv`, `wmv`, `flv`, `zip`, `rar`, `7z`, `tar`, `gz`, `bz2`, `xz`, `iso`,
/// `exe`, `msi`, `dll`, `so`, `dylib`, `class`, `jar`, `node`, `pyc`, `o`,
/// `obj`, `lib`, `wasm`, `db`, `sqlite`, `sqlite3`, `dat`, `bin`, `pdb`,
/// `drawio`) never opens as text.
pub proof fn lemma_binary_files_not_text(path: Seq<char>, len: u64)
    requires
        len <= MAX_TEXT_BYTES,
        extension(path) is Some,
        lowercase(extension(path)->0) == "doc"@ || lowercase(extension(path)->0) == "docx"@ ||
            lowercase(extension(path)->0) == "dot"@ || lowercase(extension(path)->0) == "dotx"@ ||
            lowercase(extension(path)->0) == "docm"@ || lowercase(extension(path)->0) == "xls"@ ||
            lowercase(extension(path)->0) == "xlsx"@ || lowercase(extension(path)->0) == "xlsm"@ ||
            lowercase(extension(path)->0) == "xlsb"@ || lowercase(extension(path)->0) == "ppt"@ ||
            lowercase(extension(path)->0) == "pptx"@ || lowercase(extension(path)->0) == "pps"@ ||
            lowercase(extension(path)->0) == "ppsx"@ || lowercase(extension(path)->0) == "pdf"@ ||
            lowercase(extension(path)->0) == "rtf"@ || lowercase(extension(path)->0) == "odt"@ ||
            lowercase(extension(path)->0) == "ods"@ || lowercase(extension(path)->0) == "odp"@ ||
            lowercase(extension(path)->0) == "wps"@ || lowercase(extension(path)->0) == "et"@ ||
            lowercase(extension(path)->0) == "dps"@ || lowercase(extension(path)->0) == "png"@ ||
            lowercase(extension(path)->0) == "jpg"@ || lowercase(extension(path)->0) == "jpeg"@ ||
            lowercase(extension(path)->0) == "gif"@ || lowercase(extension(path)->0) == "bmp"@ ||
            lowercase(extension(path)->0) == "ico"@ || lowercase(extension(path)->0) == "webp"@ ||
            lowercase(extension(path)->0) == "tif"@ || lowercase(extension(path)->0) == "tiff"@ ||
            lowercase(extension(path)->0) == "emf"@ || lowercase(extension(path)->0) == "wmf"@ ||
            lowercase(extension(path)->0) == "heic"@ || lowercase(extension(path)->0) == "psd"@ ||
            lowercase(extension(path)->0) == "ttf"@ || lowercase(extension(path)->0) == "otf"@ ||
            lowercase(extension(path)->0) == "woff"@ || lowercase(extension(path)->0) == "woff2"@ ||
            lowercase(extension(path)->0) == "eot"@ || lowercase(extension(path)->0) == "mp3"@ ||
            lowercase(extension(path)->0) == "wav"@ || lowercase(extension(path)->0) == "ogg"@ ||
            lowercase(extension(path)->0) == "flac"@ || lowercase(extension(path)->0) == "mp4"@ ||
            lowercase(extension(path)->0) == "avi"@ || lowercase(extension(path)->0) == "mov"@ ||
            lowercase(extension(path)->0) == "mkv"@ || lowercase(extension(path)->0) == "wmv"@ ||
            lowercase(extension(path)->0) == "flv"@ || lowercase(extension(path)->0) == "zip"@ ||
            lowercase(extension(path)->0) == "rar"@ || lowercase(extension(path)->0) == "7z"@ ||
            lowercase(extension(path)->0) == "tar"@ || lowercase(extension(path)->0) == "gz"@ ||
            lowercase(extension(path)->0) == "bz2"@ || lowercase(extension(path)->0) == "xz"@ ||
            lowercase(extension(path)->0) == "iso"@ || lowercase(extension(path)->0) == "exe"@ ||
            lowercase(extension(path)->0) == "msi"@ || lowercase(extension(path)->0) == "dll"@ ||
            lowercase(extension(path)->0) == "so"@ || lowercase(extension(path)->0) == "dylib"@ ||
            lowercase(extension(path)->0) == "class"@ || lowercase(extension(path)->0) == "jar"@ ||
            lowercase(extension(path)->0) == "node"@ || lowercase(extension(path)->0) == "pyc"@ ||
            lowercase(extension(path)->0) == "o"@ || lowercase(extension(path)->0) == "obj"@ ||
            lowercase(extension(path)->0) == "lib"@ || lowercase(extension(path)->0) == "wasm"@ ||
            lowercase(extension(path)->0) == "db"@ || lowercase(extension(path)->0) == "sqlite"@ ||
            lowercase(extension(path)->0) == "sqlite3"@ || lowercase(extension(path)->0) == "dat"@ ||
            lowercase(extension(path)->0) == "bin"@ || lowercase(extension(path)->0) == "pdb"@ ||
            lowercase(extension(path)->0) == "drawio"@,
    ensures
        text_decision_spec(path, true, len) == TextDecision::NotText,
{
    let x = lowercase(extension(path)->0);
    let l = binary_exts();
    if x == "doc"@ {
        assert(l[0] == x);
    } else if x == "docx"@ {
        assert(l[1] == x);
    } else if x == "dot"@ {
        assert(l[2] == x);
    } else if x == "dotx"@ {
        assert(l[3] == x);
    } else if x == "docm"@ {
        assert(l[4] == x);
    } else if x == "xls"@ {
        assert(l[5] == x);
    } else if x == "xlsx"@ {
        assert(l[6] == x);
    } else if x == "xlsm"@ {
        assert(l[7] == x);
    } else if x == "xlsb"@ {
        assert(l[8] == x);
    } else if x == "ppt"@ {
        assert(l[9] == x);
    } else if x == "pptx"@ {
        assert(l[10] == x);
    } else if x == "pps"@ {
        assert(l[11] == x);
    } else if x == "ppsx"@ {
        assert(l[12] == x);
    } else if x == "pdf"@ {
        assert(l[13] == x);
    } else if x == "rtf"@ {
        assert(l[14] == x);
    } else if x == "odt"@ {
        assert(l[15] == x);
    } else if x == "ods"@ {
        assert(l[16] == x);
    } else if x == "odp"@ {
        assert(l[17] == x);
    } else if x == "wps"@ {
        assert(l[18] == x);
    } else if x == "et"@ {
        assert(l[19] == x);
    } else if x == "dps"@ {
        assert(l[20] == x);
    } else if x == "png"@ {
        assert(l[21] == x);
    } else if x == "jpg"@ {
        assert(l[22] == x);
    } else if x == "jpeg"@ {
        assert(l[23] == x);
    } else if x == "gif"@ {
        assert(l[24] == x);
    } else if x == "bmp"@ {
        assert(l[25] == x);
    } else if x == "ico"@ {
        assert(l[26] == x);
    } else if x == "webp"@ {
        assert(l[27] == x);
    } else if x == "tif"@ {
        assert(l[28] == x);
    } else if x == "tiff"@ {
        assert(l[29] == x);
    } else if x == "emf"@ {
        assert(l[30] == x);
    } else if x == "wmf"@ {
        assert(l[31] == x);
    } else if x == "heic"@ {
        assert(l[32] == x);
    } else if x == "psd"@ {
        assert(l[33] == x);
    } else if x == "ttf"@ {
        assert(l[34] == x);
    } else if x == "otf"@ {
        assert(l[35] == x);
    } else if x == "woff"@ {
        assert(l[36] == x);
    } else if x == "woff2"@ {
        assert(l[37] == x);
    } else if x == "eot"@ {
        assert(l[38] == x);
    } else if x == "mp3"@ {
        assert(l[39] == x);
    } else if x == "wav"@ {
        assert(l[40] == x);
    } else if x == "ogg"@ {
        assert(l[41] == x);
    } else if x == "flac"@ {
        assert(l[42] == x);
    } else if x == "mp4"@ {
        assert(l[43] == x);
    } else if x == "avi"@ {
        assert(l[44] == x);
    } else if x == "mov"@ {
        assert(l[45] == x);
    } else if x == "mkv"@ {
        assert(l[46] == x);
    } else if x == "wmv"@ {
        assert(l[47] == x);
    } else if x == "flv"@ {
        assert(l[48] == x);
    } else if x == "zip"@ {
        assert(l[49] == x);
    } else if x == "rar"@ {
        assert(l[50] == x);
    } else if x == "7z"@ {
        assert(l[51] == x);
    } else if x == "tar"@ {
        assert(l[52] == x);
    } else if x == "gz"@ {
        assert(l[53] == x);
    } else if x == "bz2"@ {
        assert(l[54] == x);
    } else if x == "xz"@ {
        assert(l[55] == x);
    } else if x == "iso"@ {
        assert(l[56] == x);
    } else if x == "exe"@ {
        assert(l[57] == x);
    } else if x == "msi"@ {
        assert(l[58] == x);
    } else if x == "dll"@ {
        assert(l[59] == x);
    } else if x == "so"@ {
        assert(l[60] == x);
    } else if x == "dylib"@ {
        assert(l[61] == x);
    } else if x == "class"@ {
        assert(l[62] == x);
    } else if x == "jar"@ {
        assert(l[63] == x);
    } else if x == "node"@ {
        assert(l[64] == x);
    } else if x == "pyc"@ {
        assert(l[65] == x);
    } else if x == "o"@ {
        assert(l[66] == x);
    } else if x == "obj"@ {
        assert(l[67] == x);
    } else if x == "lib"@ {
        assert(l[68] == x);
    } else if x == "wasm"@ {
        assert(l[69] == x);
    } else if x == "db"@ {
        assert(l[70] == x);
    } else if x == "sqlite"@ {
        assert(l[71] == x);
    } else if x == "sqlite3"@ {
        assert(l[72] == x);
    } else if x == "dat"@ {
        assert(l[73] == x);
    } else if x == "bin"@ {
        assert(l[74] == x);
    } else if x == "pdb"@ {
        assert(l[75] == x);
    } else if x == "drawio"@ {
        assert(l[76] == x);
    }
}

/// A regular file within the size limit whose extension (any letter case)
/// is one of `md`, `markdown`, `mdx`, `txt`, `text`, `log`, `csv`, `tsv`, `json`, `jsonc`, `json5`, `yml`, `yaml`, `toml`, `ini`, `cfg`, `conf`, `properties`, `env`, `xml`, `xsd`, `xsl`, `html` opens as text.
#[verifier::rlimit(100)]
pub proof fn lemma_text_files_open_as_text_1(path: Seq<char>, len: u64)
    requires
        len <= MAX_TEXT_BYTES,
        extension(path) is Some,
        lowercase(extension(path)->0) == "md"@ || lowercase(extension(path)->0) == "markdown"@ ||
            lowercase(extension(path)->0) == "mdx"@ || lowercase(extension(path)->0) == "txt"@ ||
            lowercase(extension(path)->0) == "text"@ || lowercase(extension(path)->0) == "log"@ ||
            lowercase(extension(path)->0) == "csv"@ || lowercase(extension(path)->0) == "tsv"@ ||
            lowercase(extension(path)->0) == "json"@ || lowercase(extension(path)->0) == "jsonc"@ ||
            lowercase(extension(path)->0) == "json5"@ || lowercase(extension(path)->0) == "yml"@ ||
            lowercase(extension(path)->0) == "yaml"@ || lowercase(extension(path)->0) == "toml"@ ||
            lowercase(extension(path)->0) == "ini"@ || lowercase(extension(path)->0) == "cfg"@ ||
            lowercase(extension(path)->0) == "conf"@ || lowercase(extension(path)->0) == "properties"@ ||
            lowercase(extension(path)->0) == "env"@ || lowercase(extension(path)->0) == "xml"@ ||
            lowercase(extension(path)->0) == "xsd"@ || lowercase(extension(path)->0) == "xsl"@ ||
            lowercase(extension(path)->0) == "html"@,
    ensures
        text_decision_spec(path, true, len) == TextDecision::Text,
{
    reveal_strlit("doc");
    reveal_strlit("docx");
    reveal_strlit("dot");
    reveal_strlit("dotx");
    reveal_strlit("docm");
    reveal_strlit("xls");
    reveal_strlit("xlsx");
    reveal_strlit("xlsm");
    reveal_strlit("xlsb");
    reveal_strlit("ppt");
    reveal_strlit("pptx");
    reveal_strlit("pps");
    reveal_strlit("ppsx");
    reveal_strlit("pdf");
    reveal_strlit("rtf");
    reveal_strlit("odt");
    reveal_strlit("ods");
    reveal_strlit("odp");
    reveal_strlit("wps");
    reveal_strlit("et");
    reveal_strlit("dps");
    reveal_strlit("png");
    reveal_strlit("jpg");
    reveal_strlit("jpeg");
    reveal_strlit("gif");
    reveal_strlit("bmp");
    reveal_strlit("ico");
    reveal_strlit("webp");
    reveal_strlit("tif");
    reveal_strlit("tiff");
    reveal_strlit("emf");
    reveal_strlit("wmf");
    reveal_strlit("heic");
    reveal_strlit("psd");
    reveal_strlit("ttf");
    reveal_strlit("otf");
    reveal_strlit("woff");
    reveal_strlit("woff2");
    reveal_strlit("eot");
    reveal_strlit("mp3");
    reveal_strlit("wav");
    reveal_strlit("ogg");
    reveal_strlit("flac");
    reveal_strlit("mp4");
    reveal_strlit("avi");
    reveal_strlit("mov");
    reveal_strlit("mkv");
    reveal_strlit("wmv");
    reveal_strlit("flv");
    reveal_strlit("zip");
    reveal_strlit("rar");
    reveal_strlit("7z");
    reveal_strlit("tar");
    reveal_strlit("gz");
    reveal_strlit("bz2");
    reveal_strlit("xz");
    reveal_strlit("iso");
    reveal_strlit("exe");
    reveal_strlit("msi");
    reveal_strlit("dll");
    reveal_strlit("so");
    reveal_strlit("dylib");
    reveal_strlit("class");
    reveal_strlit("jar");
    reveal_strlit("node");
    reveal_strlit("pyc");
    reveal_strlit("o");
    reveal_strlit("obj");
    reveal_strlit("lib");
    reveal_strlit("wasm");
    reveal_strlit("db");
    reveal_strlit("sqlite");
    reveal_strlit("sqlite3");
    reveal_strlit("dat");
    reveal_strlit("bin");
    reveal_strlit("pdb");
    reveal_strlit("drawio");
    reveal_strlit("md");
    reveal_strlit("markdown");
    reveal_strlit("mdx");
    reveal_strlit("txt");
    reveal_strlit("text");
    reveal_strlit("log");
    reveal_strlit("csv");
    reveal_strlit("tsv");
    reveal_strlit("json");
    reveal_strlit("jsonc");
    reveal_strlit("json5");
    reveal_strlit("yml");
    reveal_strlit("yaml");
    reveal_strlit("toml");
    reveal_strlit("ini");
    reveal_strlit("cfg");
    reveal_strlit("conf");
    reveal_strlit("properties");
    reveal_strlit("env");
    reveal_strlit("xml");
    reveal_strlit("xsd");
    reveal_strlit("xsl");
    reveal_strlit("html");
    let x = lowercase(extension(path)->0);
    let l = text_exts();
    let b = binary_exts();
    if x == "md"@ {
        assert(l[0] == x);
        assert(x[0] == 'm' && x[1] == 'd');
        assert(!b.contains(x)) by {
            if b.contains(x) {
                let k = choose|k: int| 0 <= k < b.len() && b[k] == x;
                if k == 0 {
                    assert(b[0] == "doc"@);
                }
                if k == 1 {
                    assert(b[1] == "docx"@);
                }
                if k == 2 {
                    assert(b[2] == "dot"@);
                }
                if k == 3 {
                    assert(b[3] == "dotx"@);
                }
                if k == 4 {
                    assert(b[4] == "docm"@);
                }
                if k == 5 {
                    assert(b[5] == "xls"@);
                }
                if k == 6 {
                    assert(b[6] == "xlsx"@);
                }
                if k == 7 {
                    assert(b[7] == "xlsm"@);
                }
                if k == 8 {
                    assert(b[8] == "xlsb"@);
                }
                if k == 9 {
                    assert(b[9] == "ppt"@);
                }
                if k == 10 {
                    assert(b[10] == "pptx"@);
                }
                if k == 11 {
                    assert(b[11] == "pps"@);
                }
                if k == 12 {
                    assert(b[12] == "ppsx"@);
                }
                if k == 13 {
                    assert(b[13] == "pdf"@);
                }
                if k == 14 {
                    assert(b[14] == "rtf"@);
                }
                if k == 15 {
                    assert(b[15] == "odt"@);
                }
                if k == 16 {
                    assert(b[16] == "ods"@);
                }
                if k == 17 {
                    assert(b[17] == "odp"@);
                }
                if k == 18 {
                    assert(b[18] == "wps"@);
                }
                if k == 19 {
                    assert(b[19] == "et"@);
                }
                if k == 20 {
                    assert(b[20] == "dps"@);
                }
                if k == 21 {
                    assert(b[21] == "png"@);
                }
                if k == 22 {
                    assert(b[22] == "jpg"@);
                }
                if k == 23 {
                    assert(b[23] == "jpeg"@);
                }
                if k == 24 {
                    assert(b[24] == "gif"@);
                }
                if k == 25 {
                    assert(b[25] == "bmp"@);
                }
                if k == 26 {
                    assert(b[26] == "ico"@);
                }
                if k == 27 {
                    assert(b[27] == "webp"@);
                }
                if k == 28 {
                    assert(b[28] == "tif"@);
                }
                if k == 29 {
                    assert(b[29] == "tiff"@);
                }
                if k == 30 {
                    assert(b[30] == "emf"@);
                }
                if k == 31 {
                    assert(b[31] == "wmf"@);
                }
                if k == 32 {
                    assert(b[32] == "heic"@);
                }
                if k == 33 {
                    assert(b[33] == "psd"@);
                }
                if k == 34 {
                    assert(b[34] == "ttf"@);
                }
                if k == 35 {
                    assert(b[35] == "otf"@);
                }
                if k == 36 {
                    assert(b[36] == "woff"@);
                }
                if k == 37 {
                    assert(b[37] == "woff2"@);
                }
                if k == 38 {
                    assert(b[38] == "eot"@);
                }
                if k == 39 {
                    assert(b[39] == "mp3"@);
                }
                if k == 40 {
                    assert(b[40] == "wav"@);
                }
                if k == 41 {
                    assert(b[41] == "ogg"@);
                }
                if k == 42 {
                    assert(b[42] == "flac"@);
                }
                if k == 43 {
                    assert(b[43] == "mp4"@);
                }
                if k == 44 {
                    assert(b[44] == "avi"@);
                }
                if k == 45 {
                    assert(b[45] == "mov"@);
                }
                if k == 46 {
                    assert(b[46] == "mkv"@);
                }
                if k == 47 {
                    assert(b[47] == "wmv"@);
                }
                if k == 48 {
                    assert(b[48] == "flv"@);
                }
                if k == 49 {
                    assert(b[49] == "zip"@);
                }
                if k == 50 {
                    assert(b[50] == "rar"@);
                }
                if k == 51 {
                    assert(b[51] == "7z"@);
                }
                if k == 52 {
                    assert(b[52] == "tar"@);
                }
                if k == 53 {
                    assert(b[53] == "gz"@);
                }
                if k == 54 {
                    assert(b[54] == "bz2"@);
                }
                if k == 55 {
                    assert(b[55] == "xz"@);
                }
                if k == 56 {
                    assert(b[56] == "iso"@);
                }
                if k == 57 {
                    assert(b[57] == "exe"@);
                }
                if k == 58 {
                    assert(b[58] == "msi"@);
                }
                if k == 59 {
                    assert(b[59] == "dll"@);
                }
                if k == 60 {
                    assert(b[60] == "so"@);
                }
                if k == 61 {
                    assert(b[61] == "dylib"@);
                }
                if k == 62 {
                    assert(b[62] == "class"@);
                }
                if k == 63 {
                    assert(b[63] == "jar"@);
                }
                if k == 64 {
                    assert(b[64] == "node"@);
                }
                if k == 65 {
                    assert(b[65] == "pyc"@);
                }
                if k == 66 {
                    assert(b[66] == "o"@);
                }
                if k == 67 {
                    assert(b[67] == "obj"@);
                }
                if k == 68 {
                    assert(b[68] == "lib"@);
                }
                if k == 69 {
                    assert(b[69] == "wasm"@);
                }
                if k == 70 {
                    assert(b[70] == "db"@);
                }
                if k == 71 {
                    assert(b[71] == "sqlite"@);
                }
                if k == 72 {
                    assert(b[72] == "sqlite3"@);
                }
                if k == 73 {
                    assert(b[73] == "dat"@);
                }
                if k == 74 {
                    assert(b[74] == "bin"@);
                }
                if k == 75 {
                    assert(b[75] == "pdb"@);
                }
                if k == 76 {
                    assert(b[76] == "drawio"@);
                }
            }
        }
    } else if x == "markdown"@ {
        assert(l[1] == x);
        assert(x[0] == 'm' && x[1] == 'a' && x[2] == 'r' && x[3] == 'k' && x[4] == 'd' && x[5] == 'o' && x[6] == 'w' && x[7] == 'n');
        assert(!b.contains(x)) by {
            if b.contains(x) {
                let k = choose|k: int| 0 <= k < b.len() && b[k] == x;
                if k == 0 {
                    assert(b[0] == "doc"@);
                }
                if k == 1 {
                    assert(b[1] == "docx"@);
                }
                if k == 2 {
                    assert(b[2] == "dot"@);
                }
                if k == 3 {
                    assert(b[3] == "dotx"@);
                }
                if k == 4 {
                    assert(b[4] == "docm"@);
                }
                if k == 5 {
                    assert(b[5] == "xls"@);
                }
                if k == 6 {
                    assert(b[6] == "xlsx"@);
                }
                if k == 7 {
                    assert(b[7] == "xlsm"@);
                }
                if k == 8 {
                    assert(b[8] == "xlsb"@);
                }
                if k == 9 {
                    assert(b[9] == "ppt"@);
                }
                if k == 10 {
                    assert(b[10] == "pptx"@);
                }
                if k == 11 {
                    assert(b[11] == "pps"@);
                }
                if k == 12 {
                    assert(b[12] == "ppsx"@);
                }
                if k == 13 {
                    assert(b[13] == "pdf"@);
                }
                if k == 14 {
                    assert(b[14] == "rtf"@);
                }
                if k == 15 {
                    assert(b[15] == "odt"@);
                }
                if k == 16 {
                    assert(b[16] == "ods"@);
                }
                if k == 17 {
                    assert(b[17] == "odp"@);
                }
                if k == 18 {
                    assert(b[18] == "wps"@);
                }
                if k == 19 {
                    assert(b[19] == "et"@);
                }
                if k == 20 {
                    assert(b[20] == "dps"@);
                }
                if k == 21 {
                    assert(b[21] == "png"@);
                }
                if k == 22 {
                    assert(b[22] == "jpg"@);
                }
                if k == 23 {
                    assert(b[23] == "jpeg"@);
                }
                if k == 24 {
                    assert(b[24] == "gif"@);
                }
                if k == 25 {
                    assert(b[25] == "bmp"@);
                }
                if k == 26 {
                    assert(b[26] == "ico"@);
                }
                if k == 27 {
                    assert(b[27] == "webp"@);
                }
                if k == 28 {
                    assert(b[28] == "tif"@);
                }
                if k == 29 {
                    assert(b[29] == "tiff"@);
                }
                if k == 30 {
                    assert(b[30] == "emf"@);
                }
                if k == 31 {
                    assert(b[31] == "wmf"@);
                }
                if k == 32 {
                    assert(b[32] == "heic"@);
                }
                if k == 33 {
                    assert(b[33] == "psd"@);
                }
                if k == 34 {
                    assert(b[34] == "ttf"@);
                }
                if k == 35 {
                    assert(b[35] == "otf"@);
                }
                if k == 36 {
                    assert(b[36] == "woff"@);
                }
                if k == 37 {
                    assert(b[37] == "woff2"@);
                }
                if k == 38 {
                    assert(b[38] == "eot"@);
                }
                if k == 39 {
                    assert(b[39] == "mp3"@);
                }
                if k == 40 {
                    assert(b[40] == "wav"@);
                }
                if k == 41 {
                    assert(b[41] == "ogg"@);
                }
                if k == 42 {
                    assert(b[42] == "flac"@);
                }
                if k == 43 {
                    assert(b[43] == "mp4"@);
                }
                if k == 44 {
                    assert(b[44] == "avi"@);
                }
                if k == 45 {
                    assert(b[45] == "mov"@);
                }
                if k == 46 {
                    assert(b[46] == "mkv"@);
                }
                if k == 47 {
                    assert(b[47] == "wmv"@);
                }
                if k == 48 {
                    assert(b[48] == "flv"@);
                }
                if k == 49 {
                    assert(b[49] == "zip"@);
                }
                if k == 50 {
                    assert(b[50] == "rar"@);
                }
                if k == 51 {
                    assert(b[51] == "7z"@);
                }
                if k == 52 {
                    assert(b[52] == "tar"@);
                }
                if k == 53 {
                    assert(b[53] == "gz"@);
                }
                if k == 54 {
                    assert(b[54] == "bz2"@);
                }
                if k == 55 {
                    assert(b[55] == "xz"@);
                }
                if k == 56 {
                    assert(b[56] == "iso"@);
                }
                if k == 57 {
                    assert(b[57] == "exe"@);
                }
                if k == 58 {
                    assert(b[58] == "msi"@);
                }
                if k == 59 {
                    assert(b[59] == "dll"@);
                }
                if k == 60 {
                    assert(b[60] == "so"@);
                }
                if k == 61 {
                    assert(b[61] == "dylib"@);
                }
                if k == 62 {
                    assert(b[62] == "class"@);
                }
                if k == 63 {
                    assert(b[63] == "jar"@);
                }
                if k == 64 {
                    assert(b[64] == "node"@);
                }
                if k == 65 {
                    assert(b[65] == "pyc"@);
                }
                if k == 66 {
                    assert(b[66] == "o"@);
                }
                if k == 67 {
                    assert(b[67] == "obj"@);
                }
                if k == 68 {
                    assert(b[68] == "lib"@);
                }
                if k == 69 {
                    assert(b[69] == "wasm"@);
                }
                if k == 70 {
                    assert(b[70] == "db"@);
                }
                if k == 71 {
                    assert(b[71] == "sqlite"@);
                }
                if k == 72 {
                    assert(b[72] == "sqlite3"@);
                }
                if k == 73 {
                    assert(b[73] == "dat"@);
                }
                if k == 74 {
                    assert(b[74] == "bin"@);
                }
                if k == 75 {
                    assert(b[75] == "pdb"@);
                }
                if k == 76 {
                    assert(b[76] == "drawio"@);
                }
            }
        }
    } else if x == "mdx"@ {
        assert(l[2] == x);
        assert(x[0] == 'm' && x[1] == 'd' && x[2] == 'x');
        assert(!b.contains(x)) by {
            if b.contains(x) {
                let k = choose|k: int| 0 <= k < b.len() && b[k] == x;
                if k == 0 {
                    assert(b[0] == "doc"@);
                }
                if k == 1 {
                    assert(b[1] == "docx"@);
                }
                if k == 2 {
                    assert(b[2] == "dot"@);
                }
                if k == 3 {
                    assert(b[3] == "dotx"@);
                }
                if k == 4 {
                    assert(b[4] == "docm"@);
                }
                if k == 5 {
                    assert(b[5] == "xls"@);
                }
                if k == 6 {
                    assert(b[6] == "xlsx"@);
                }
                if k == 7 {
                    assert(b[7] == "xlsm"@);
                }
                if k == 8 {
                    assert(b[8] == "xlsb"@);
                }
                if k == 9 {
                    assert(b[9] == "ppt"@);
                }
                if k == 10 {
                    assert(b[10] == "pptx"@);
                }
                if k == 11 {
                    assert(b[11] == "pps"@);
                }
                if k == 12 {
                    assert(b[12] == "ppsx"@);
                }
                if k == 13 {
                    assert(b[13] == "pdf"@);
                }
                if k == 14 {
                    assert(b[14] == "rtf"@);
                }
                if k == 15 {
                    assert(b[15] == "odt"@);
                }
                if k == 16 {
                    assert(b[16] == "ods"@);
                }
                if k == 17 {
                    assert(b[17] == "odp"@);
                }
                if k == 18 {
                    assert(b[18] == "wps"@);
                }
                if k == 19 {
                    assert(b[19] == "et"@);
                }
                if k == 20 {
                    assert(b[20] == "dps"@);
                }
                if k == 21 {
                    assert(b[21] == "png"@);
                }
                if k == 22 {
                    assert(b[22] == "jpg"@);
                }
                if k == 23 {
                    assert(b[23] == "jpeg"@);
                }
                if k == 24 {
                    assert(b[24] == "gif"@);
                }
                if k == 25 {
                    assert(b[25] == "bmp"@);
                }
                if k == 26 {
                    assert(b[26] == "ico"@);
                }
                if k == 27 {
                    assert(b[27] == "webp"@);
                }
                if k == 28 {
                    assert(b[28] == "tif"@);
                }
                if k == 29 {
                    assert(b[29] == "tiff"@);
                }
                if k == 30 {
                    assert(b[30] == "emf"@);
                }
                if k == 31 {
                    assert(b[31] == "wmf"@);
                }
                if k == 32 {
                    assert(b[32] == "heic"@);
                }
                if k == 33 {
                    assert(b[33] == "psd"@);
                }
                if k == 34 {
                    assert(b[34] == "ttf"@);
                }
                if k == 35 {
                    assert(b[35] == "otf"@);
                }
                if k == 36 {
                    assert(b[36] == "woff"@);
                }
                if k == 37 {
                    assert(b[37] == "woff2"@);
                }
                if k == 38 {
                    assert(b[38] == "eot"@);
                }
                if k == 39 {
                    assert(b[39] == "mp3"@);
                }
                if k == 40 {
                    assert(b[40] == "wav"@);
                }
                if k == 41 {
                    assert(b[41] == "ogg"@);
                }
                if k == 42 {
                    assert(b[42] == "flac"@);
                }
                if k == 43 {
                    assert(b[43] == "mp4"@);
                }
                if k == 44 {
                    assert(b[44] == "avi"@);
                }
                if k == 45 {
                    assert(b[45] == "mov"@);
                }
                if k == 46 {
                    assert(b[46] == "mkv"@);
                }
                if k == 47 {
                    assert(b[47] == "wmv"@);
                }
                if k == 48 {
                    assert(b[48] == "flv"@);
                }
                if k == 49 {
                    assert(b[49] == "zip"@);
                }
                if k == 50 {
                    assert(b[50] == "rar"@);
                }
                if k == 51 {
                    assert(b[51] == "7z"@);
                }
                if k == 52 {
                    assert(b[52] == "tar"@);
                }
                if k == 53 {
                    assert(b[53] == "gz"@);
                }
                if k == 54 {
                    assert(b[54] == "bz2"@);
                }
                if k == 55 {
                    assert(b[55] == "xz"@);
                }
                if k == 56 {
                    assert(b[56] == "iso"@);
                }
                if k == 57 {
                    assert(b[57] == "exe"@);
                }
                if k == 58 {
                    assert(b[58] == "msi"@);
                }
                if k == 59 {
                    assert(b[59] == "dll"@);
                }
                if k == 60 {
                    assert(b[60] == "so"@);
                }
                if k == 61 {
                    assert(b[61] == "dylib"@);
                }
                if k == 62 {
                    assert(b[62] == "class"@);
                }
                if k == 63 {
                    assert(b[63] == "jar"@);
                }
                if k == 64 {
                    assert(b[64] == "node"@);
                }
                if k == 65 {
                    assert(b[65] == "pyc"@);
                }
                if k == 66 {
                    assert(b[66] == "o"@);
                }
                if k == 67 {
                    assert(b[67] == "obj"@);
                }
                if k == 68 {
                    assert(b[68] == "lib"@);
                }
                if k == 69 {
                    assert(b[69] == "wasm"@);
                }
                if k == 70 {
                    assert(b[70] == "db"@);
                }
                if k == 71 {
                    assert(b[71] == "sqlite"@);
                }
                if k == 72 {
                    assert(b[72] == "sqlite3"@);
                }
                if k == 73 {
                    assert(b[73] == "dat"@);
                }
                if k == 74 {
                    assert(b[74] == "bin"@);
                }
                if k == 75 {
                    assert(b[75] == "pdb"@);
                }
                if k == 76 {
                    assert(b[76] == "drawio"@);
                }
            }
        }
    } else if x == "txt"@ {
        assert(l[3] == x);
        assert(x[0] == 't' && x[1] == 'x' && x[2] == 't');
        assert(!b.contains(x)) by {
            if b.contains(x) {
                let k = choose|k: int| 0 <= k < b.len() && b[k] == x;
                if k == 0 {
                    assert(b[0] == "doc"@);
                }
                if k == 1 {
                    assert(b[1] == "docx"@);
                }
                if k == 2 {
                    assert(b[2] == "dot"@);
                }
                if k == 3 {
                    assert(b[3] == "dotx"@);
                }
                if k == 4 {
                    assert(b[4] == "docm"@);
                }
                if k == 5 {
                    assert(b[5] == "xls"@);
                }
                if k == 6 {
                    assert(b[6] == "xlsx"@);
                }
                if k == 7 {
                    assert(b[7] == "xlsm"@);
                }
                if k == 8 {
                    assert(b[8] == "xlsb"@);
                }
                if k == 9 {
                    assert(b[9] == "ppt"@);
                }
                if k == 10 {
                    assert(b[10] == "pptx"@);
                }
                if k == 11 {
                    assert(b[11] == "pps"@);
                }
                if k == 12 {
                    assert(b[12] == "ppsx"@);
                }
                if k == 13 {
                    assert(b[13] == "pdf"@);
                }
                if k == 14 {
                    assert(b[14] == "rtf"@);
                }
                if k == 15 {
                    assert(b[15] == "odt"@);
                }
                if k == 16 {
                    assert(b[16] == "ods"@);
                }
                if k == 17 {
                    assert(b[17] == "odp"@);
                }
                if k == 18 {
                    assert(b[18] == "wps"@);
                }
                if k == 19 {
                    assert(b[19] == "et"@);
                }
                if k == 20 {
                    assert(b[20] == "dps"@);
                }
                if k == 21 {
                    assert(b[21] == "png"@);
                }
                if k == 22 {
                    assert(b[22] == "jpg"@);
                }
                if k == 23 {
                    assert(b[23] == "jpeg"@);
                }
                if k == 24 {
                    assert(b[24] == "gif"@);
                }
                if k == 25 {
                    assert(b[25] == "bmp"@);
                }
                if k == 26 {
                    assert(b[26] == "ico"@);
                }
                if k == 27 {
                    assert(b[27] == "webp"@);
                }
                if k == 28 {
                    assert(b[28] == "tif"@);
                }
                if k == 29 {
                    assert(b[29] == "tiff"@);
                }
                if k == 30 {
                    assert(b[30] == "emf"@);
                }
                if k == 31 {
                    assert(b[31] == "wmf"@);
                }
                if k == 32 {
                    assert(b[32] == "heic"@);
                }
                if k == 33 {
                    assert(b[33] == "psd"@);
                }
                if k == 34 {
                    assert(b[34] == "ttf"@);
                }
                if k == 35 {
                    assert(b[35] == "otf"@);
                }
                if k == 36 {
                    assert(b[36] == "woff"@);
                }
                if k == 37 {
                    assert(b[37] == "woff2"@);
                }
                if k == 38 {
                    assert(b[38] == "eot"@);
                }
                if k == 39 {
                    assert(b[39] == "mp3"@);
                }
                if k == 40 {
                    assert(b[40] == "wav"@);
                }
                if k == 41 {
                    assert(b[41] == "ogg"@);
                }
                if k == 42 {
                    assert(b[42] == "flac"@);
                }
                if k == 43 {
                    assert(b[43] == "mp4"@);
                }
                if k == 44 {
                    assert(b[44] == "avi"@);
                }
                if k == 45 {
                    assert(b[45] == "mov"@);
                }
                if k == 46 {
                    assert(b[46] == "mkv"@);
                }
                if k == 47 {
                    assert(b[47] == "wmv"@);
                }
                if k == 48 {
                    assert(b[48] == "flv"@);
                }
                if k == 49 {
                    assert(b[49] == "zip"@);
                }
                if k == 50 {
                    assert(b[50] == "rar"@);
                }
                if k == 51 {
                    assert(b[51] == "7z"@);
                }
                if k == 52 {
                    assert(b[52] == "tar"@);
                }
                if k == 53 {
                    assert(b[53] == "gz"@);
                }
                if k == 54 {
                    assert(b[54] == "bz2"@);
                }
                if k == 55 {
                    assert(b[55] == "xz"@);
                }
                if k == 56 {
                    assert(b[56] == "iso"@);
                }
                if k == 57 {
                    assert(b[57] == "exe"@);
                }
                if k == 58 {
                    assert(b[58] == "msi"@);
                }
                if k == 59 {
                    assert(b[59] == "dll"@);
                }
                if k == 60 {
                    assert(b[60] == "so"@);
                }
                if k == 61 {
                    assert(b[61] == "dylib"@);
                }
                if k == 62 {
                    assert(b[62] == "class"@);
                }
                if k == 63 {
                    assert(b[63] == "jar"@);
                }
                if k == 64 {
                    assert(b[64] == "node"@);
                }
                if k == 65 {
                    assert(b[65] == "pyc"@);
                }
                if k == 66 {
                    assert(b[66] == "o"@);
                }
                if k == 67 {
                    assert(b[67] == "obj"@);
                }
                if k == 68 {
                    assert(b[68] == "lib"@);
                }
                if k == 69 {
                    assert(b[69] == "wasm"@);
                }
                if k == 70 {
                    assert(b[70] == "db"@);
                }
                if k == 71 {
                    assert(b[71] == "sqlite"@);
                }
                if k == 72 {
                    assert(b[72] == "sqlite3"@);
                }
                if k == 73 {
                    assert(b[73] == "dat"@);
                }
                if k == 74 {
                    assert(b[74] == "bin"@);
                }
                if k == 75 {
                    assert(b[75] == "pdb"@);
                }
                if k == 76 {
                    assert(b[76] == "drawio"@);
                }
            }
        }
    } else if x == "text"@ {
        assert(l[4] == x);
        assert(x[0] == 't' && x[1] == 'e' && x[2] == 'x' && x[3] == 't');
        assert(!b.contains(x)) by {
            if b.contains(x) {
                let k = choose|k: int| 0 <= k < b.len() && b[k] == x;
                if k == 0 {
                    assert(b[0] == "doc"@);
                }
                if k == 1 {
                    assert(b[1] == "docx"@);
                }
                if k == 2 {
                    assert(b[2] == "dot"@);
                }
                if k == 3 {
                    assert(b[3] == "dotx"@);
                }
                if k == 4 {
                    assert(b[4] == "docm"@);
                }
                if k == 5 {
                    assert(b[5] == "xls"@);
                }
                if k == 6 {
                    assert(b[6] == "xlsx"@);
                }
                if k == 7 {
                    assert(b[7] == "xlsm"@);
                }
                if k == 8 {
                    assert(b[8] == "xlsb"@);
                }
                if k == 9 {
                    assert(b[9] == "ppt"@);
                }
                if k == 10 {
                    assert(b[10] == "pptx"@);
                }
                if k == 11 {
                    assert(b[11] == "pps"@);
                }
                if k == 12 {
                    assert(b[12] == "ppsx"@);
                }
                if k == 13 {
                    assert(b[13] == "pdf"@);
                }
                if k == 14 {
                    assert(b[14] == "rtf"@);
                }
                if k == 15 {
                    assert(b[15] == "odt"@);
                }
                if k == 16 {
                    assert(b[16] == "ods"@);
                }
                if k == 17 {
                    assert(b[17] == "odp"@);
                }
                if k == 18 {
                    assert(b[18] == "wps"@);
                }
                if k == 19 {
                    assert(b[19] == "et"@);
                }
                if k == 20 {
                    assert(b[20] == "dps"@);
                }
                if k == 21 {
                    assert(b[21] == "png"@);
                }
                if k == 22 {
                    assert(b[22] == "jpg"@);
                }
                if k == 23 {
                    assert(b[23] == "jpeg"@);
                }
                if k == 24 {
                    assert(b[24] == "gif"@);
                }
                if k == 25 {
                    assert(b[25] == "bmp"@);
                }
                if k == 26 {
                    assert(b[26] == "ico"@);
                }
                if k == 27 {
                    assert(b[27] == "webp"@);
                }
                if k == 28 {
                    assert(b[28] == "tif"@);
                }
                if k == 29 {
                    assert(b[29] == "tiff"@);
                }
                if k == 30 {
                    assert(b[30] == "emf"@);
                }
                if k == 31 {
                    assert(b[31] == "wmf"@);
                }
                if k == 32 {
                    assert(b[32] == "heic"@);
                }
                if k == 33 {
                    assert(b[33] == "psd"@);
                }
                if k == 34 {
                    assert(b[34] == "ttf"@);
                }
                if k == 35 {
                    assert(b[35] == "otf"@);
                }
                if k == 36 {
                    assert(b[36] == "woff"@);
                }
                if k == 37 {
                    assert(b[37] == "woff2"@);
                }
                if k == 38 {
                    assert(b[38] == "eot"@);
                }
                if k == 39 {
                    assert(b[39] == "mp3"@);
                }
                if k == 40 {
                    assert(b[40] == "wav"@);
                }
                if k == 41 {
                    assert(b[41] == "ogg"@);
                }
                if k == 42 {
                    assert(b[42] == "flac"@);
                }
                if k == 43 {
                    assert(b[43] == "mp4"@);
                }
                if k == 44 {
                    assert(b[44] == "avi"@);
                }
                if k == 45 {
                    assert(b[45] == "mov"@);
                }
                if k == 46 {
                    assert(b[46] == "mkv"@);
                }
                if k == 47 {
                    assert(b[47] == "wmv"@);
                }
                if k == 48 {
                    assert(b[48] == "flv"@);
                }
                if k == 49 {
                    assert(b[49] == "zip"@);
                }
                if k == 50 {
                    assert(b[50] == "rar"@);
                }
                if k == 51 {
                    assert(b[51] == "7z"@);
                }
                if k == 52 {
                    assert(b[52] == "tar"@);
                }
                if k == 53 {
                    assert(b[53] == "gz"@);
                }
                if k == 54 {
                    assert(b[54] == "bz2"@);
                }
                if k == 55 {
                    assert(b[55] == "xz"@);
                }
                if k == 56 {
                    assert(b[56] == "iso"@);
                }
                if k == 57 {
                    assert(b[57] == "exe"@);
                }
                if k == 58 {
                    assert(b[58] == "msi"@);
                }
                if k == 59 {
                    assert(b[59] == "dll"@);
                }
                if k == 60 {
                    assert(b[60] == "so"@);
                }
                if k == 61 {
                    assert(b[61] == "dylib"@);
                }
                if k == 62 {
                    assert(b[62] == "class"@);
                }
                if k == 63 {
                    assert(b[63] == "jar"@);
                }
                if k == 64 {
                    assert(b[64] == "node"@);
                }
                if k == 65 {
                    assert(b[65] == "pyc"@);
                }
                if k == 66 {
                    assert(b[66] == "o"@);
                }
                if k == 67 {
                    assert(b[67] == "obj"@);
                }
                if k == 68 {
                    assert(b[68] == "lib"@);
                }
                if k == 69 {
                    assert(b[69] == "wasm"@);
                }
                if k == 70 {
                    assert(b[70] == "db"@);
                }
                if k == 71 {
                    assert(b[71] == "sqlite"@);
                }
                if k == 72 {
                    assert(b[72] == "sqlite3"@);
                }
                if k == 73 {
                    assert(b[73] == "dat"@);
                }
                if k == 74 {
                    assert(b[74] == "bin"@);
                }
                if k == 75 {
                    assert(b[75] == "pdb"@);
                }
                if k == 76 {
                    assert(b[76] == "drawio"@);
                }
            }
        }
    } else if x == "log"@ {
        assert(l[5] == x);
        assert(x[0] == 'l' && x[1] == 'o' && x[2] == 'g');
        assert(!b.contains(x)) by {
            if b.contains(x) {
                let k = choose|k: int| 0 <= k < b.len() && b[k] == x;
                if k == 0 {
                    assert(b[0] == "doc"@);
                }
                if k == 1 {
                    assert(b[1] == "docx"@);
                }
                if k == 2 {
                    assert(b[2] == "dot"@);
                }
                if k == 3 {
                    assert(b[3] == "dotx"@);
                }
                if k == 4 {
                    assert(b[4] == "docm"@);
                }
                if k == 5 {
                    assert(b[5] == "xls"@);
                }
                if k == 6 {
                    assert(b[6] == "xlsx"@);
                }
                if k == 7 {
                    assert(b[7] == "xlsm"@);
                }
                if k == 8 {
                    assert(b[8] == "xlsb"@);
                }
                if k == 9 {
                    assert(b[9] == "ppt"@);
                }
                if k == 10 {
                    assert(b[10] == "pptx"@);
                }
                if k == 11 {
                    assert(b[11] == "pps"@);
                }
                if k == 12 {
                    assert(b[12] == "ppsx"@);
                }
                if k == 13 {
                    assert(b[13] == "pdf"@);
                }
                if k == 14 {
                    assert(b[14] == "rtf"@);
                }
                if k == 15 {
                    assert(b[15] == "odt"@);
                }
                if k == 16 {
                    assert(b[16] == "ods"@);
                }
                if k == 17 {
                    assert(b[17] == "odp"@);
                }
                if k == 18 {
                    assert(b[18] == "wps"@);
                }
                if k == 19 {
                    assert(b[19] == "et"@);
                }
                if k == 20 {
                    assert(b[20] == "dps"@);
                }
                if k == 21 {
                    assert(b[21] == "png"@);
                }
                if k == 22 {
                    assert(b[22] == "jpg"@);
                }
                if k == 23 {
                    assert(b[23] == "jpeg"@);
                }
                if k == 24 {
                    assert(b[24] == "gif"@);
                }
                if k == 25 {
                    assert(b[25] == "bmp"@);
                }
                if k == 26 {
                    assert(b[26] == "ico"@);
                }
                if k == 27 {
                    assert(b[27] == "webp"@);
                }
                if k == 28 {
                    assert(b[28] == "tif"@);
                }
                if k == 29 {
                    assert(b[29] == "tiff"@);
                }
                if k == 30 {
                    assert(b[30] == "emf"@);
                }
                if k == 31 {
                    assert(b[31] == "wmf"@);
                }
                if k == 32 {
                    assert(b[32] == "heic"@);
                }
                if k == 33 {
                    assert(b[33] == "psd"@);
                }
                if k == 34 {
                    assert(b[34] == "ttf"@);
                }
                if k == 35 {
                    assert(b[35] == "otf"@);
                }
                if k == 36 {
                    assert(b[36] == "woff"@);
                }
                if k == 37 {
                    assert(b[37] == "woff2"@);
                }
                if k == 38 {
                    assert(b[38] == "eot"@);
                }
                if k == 39 {
                    assert(b[39] == "mp3"@);
                }
                if k == 40 {
                    assert(b[40] == "wav"@);
                }
                if k == 41 {
                    assert(b[41] == "ogg"@);
                }
                if k == 42 {
                    assert(b[42] == "flac"@);
                }
                if k == 43 {
                    assert(b[43] == "mp4"@);
                }
                if k == 44 {
                    assert(b[44] == "avi"@);
                }
                if k == 45 {
                    assert(b[45] == "mov"@);
                }
                if k == 46 {
                    assert(b[46] == "mkv"@);
                }
                if k == 47 {
                    assert(b[47] == "wmv"@);
                }
                if k == 48 {
                    assert(b[48] == "flv"@);
                }
                if k == 49 {
                    assert(b[49] == "zip"@);
                }
                if k == 50 {
                    assert(b[50] == "rar"@);
                }
                if k == 51 {
                    assert(b[51] == "7z"@);
                }
                if k == 52 {
                    assert(b[52] == "tar"@);
                }
                if k == 53 {
                    assert(b[53] == "gz"@);
                }
                if k == 54 {
                    assert(b[54] == "bz2"@);
                }
                if k == 55 {
                    assert(b[55] == "xz"@);
                }
                if k == 56 {
                    assert(b[56] == "iso"@);
                }
                if k == 57 {
                    assert(b[57] == "exe"@);
                }
                if k == 58 {
                    assert(b[58] == "msi"@);
                }
                if k == 59 {
                    assert(b[59] == "dll"@);
                }
                if k == 60 {
                    assert(b[60] == "so"@);
                }
                if k == 61 {
                    assert(b[61] == "dylib"@);
                }
                if k == 62 {
                    assert(b[62] == "class"@);
                }
                if k == 63 {
                    assert(b[63] == "jar"@);
                }
                if k == 64 {
                    assert(b[64] == "node"@);
                }
                if k == 65 {
                    assert(b[65] == "pyc"@);
                }
                if k == 66 {
                    assert(b[66] == "o"@);
                }
                if k == 67 {
                    assert(b[67] == "obj"@);
                }
                if k == 68 {
                    assert(b[68] == "lib"@);
                }
                if k == 69 {
                    assert(b[69] == "wasm"@);
                }
                if k == 70 {
                    assert(b[70] == "db"@);
                }
                if k == 71 {
                    assert(b[71] == "sqlite"@);
                }
                if k == 72 {
                    assert(b[72] == "sqlite3"@);
                }
                if k == 73 {
                    assert(b[73] == "dat"@);
                }
                if k == 74 {
                    assert(b[74] == "bin"@);
                }
                if k == 75 {
                    assert(b[75] == "pdb"@);
                }
                if k == 76 {
                    assert(b[76] == "drawio"@);
                }
            }
        }
    } else if x == "csv"@ {
        assert(l[6] == x);
        assert(x[0] == 'c' && x[1] == 's' && x[2] == 'v');
        assert(!b.contains(x)) by {
            if b.contains(x) {
                let k = choose|k: int| 0 <= k < b.len() && b[k] == x;
                if k == 0 {
                    assert(b[0] == "doc"@);
                }
                if k == 1 {
                    assert(b[1] == "docx"@);
                }
                if k == 2 {
                    assert(b[2] == "dot"@);
                }
                if k == 3 {
                    assert(b[3] == "dotx"@);
                }
                if k == 4 {
                    assert(b[4] == "docm"@);
                }
                if k == 5 {
                    assert(b[5] == "xls"@);
                }
                if k == 6 {
                    assert(b[6] == "xlsx"@);
                }
                if k == 7 {
                    assert(b[7] == "xlsm"@);
                }
                if k == 8 {
                    assert(b[8] == "xlsb"@);
                }
                if k == 9 {
                    assert(b[9] == "ppt"@);
                }
                if k == 10 {
                    assert(b[10] == "pptx"@);
                }
                if k == 11 {
                    assert(b[11] == "pps"@);
                }
                if k == 12 {
                    assert(b[12] == "ppsx"@);
                }
                if k == 13 {
                    assert(b[13] == "pdf"@);
                }
                if k == 14 {
                    assert(b[14] == "rtf"@);
                }
                if k == 15 {
                    assert(b[15] == "odt"@);
                }
                if k == 16 {
                    assert(b[16] == "ods"@);
                }
                if k == 17 {
                    assert(b[17] == "odp"@);
                }
                if k == 18 {
                    assert(b[18] == "wps"@);
                }
                if k == 19 {
                    assert(b[19] == "et"@);
                }
                if k == 20 {
                    assert(b[20] == "dps"@);
                }
                if k == 21 {
                    assert(b[21] == "png"@);
                }
                if k == 22 {
                    assert(b[22] == "jpg"@);
                }
                if k == 23 {
                    assert(b[23] == "jpeg"@);
                }
                if k == 24 {
                    assert(b[24] == "gif"@);
                }
                if k == 25 {
                    assert(b[25] == "bmp"@);
                }
                if k == 26 {
                    assert(b[26] == "ico"@);
                }
                if k == 27 {
                    assert(b[27] == "webp"@);
                }
                if k == 28 {
                    assert(b[28] == "tif"@);
                }
                if k == 29 {
                    assert(b[29] == "tiff"@);
                }
                if k == 30 {
                    assert(b[30] == "emf"@);
                }
                if k == 31 {
                    assert(b[31] == "wmf"@);
                }
                if k == 32 {
                    assert(b[32] == "heic"@);
                }
                if k == 33 {
                    assert(b[33] == "psd"@);
                }
                if k == 34 {
                    assert(b[34] == "ttf"@);
                }
                if k == 35 {
                    assert(b[35] == "otf"@);
                }
                if k == 36 {
                    assert(b[36] == "woff"@);
                }
                if k == 37 {
                    assert(b[37] == "woff2"@);
                }
                if k == 38 {
                    assert(b[38] == "eot"@);
                }
                if k == 39 {
                    assert(b[39] == "mp3"@);
                }
                if k == 40 {
                    assert(b[40] == "wav"@);
                }
                if k == 41 {
                    assert(b[41] == "ogg"@);
                }
                if k == 42 {
                    assert(b[42] == "flac"@);
                }
                if k == 43 {
                    assert(b[43] == "mp4"@);
                }
                if k == 44 {
                    assert(b[44] == "avi"@);
                }
                if k == 45 {
                    assert(b[45] == "mov"@);
                }
                if k == 46 {
                    assert(b[46] == "mkv"@);
                }
                if k == 47 {
                    assert(b[47] == "wmv"@);
                }
                if k == 48 {
                    assert(b[48] == "flv"@);
                }
                if k == 49 {
                    assert(b[49] == "zip"@);
                }
                if k == 50 {
                    assert(b[50] == "rar"@);
                }
                if k == 51 {
                    assert(b[51] == "7z"@);
                }
                if k == 52 {
                    assert(b[52] == "tar"@);
                }
                if k == 53 {
                    assert(b[53] == "gz"@);
                }
                if k == 54 {
                    assert(b[54] == "bz2"@);
                }
                if k == 55 {
                    assert(b[55] == "xz"@);
                }
                if k == 56 {
                    assert(b[56] == "iso"@);
                }
                if k == 57 {
                    assert(b[57] == "exe"@);
                }
                if k == 58 {
                    assert(b[58] == "msi"@);
                }
                if k == 59 {
                    assert(b[59] == "dll"@);
                }
                if k == 60 {
                    assert(b[60] == "so"@);
                }
                if k == 61 {
                    assert(b[61] == "dylib"@);
                }
                if k == 62 {
                    assert(b[62] == "class"@);
                }
                if k == 63 {
                    assert(b[63] == "jar"@);
                }
                if k == 64 {
                    assert(b[64] == "node"@);
                }
                if k == 65 {
                    assert(b[65] == "pyc"@);
                }
                if k == 66 {
                    assert(b[66] == "o"@);
                }
                if k == 67 {
                    assert(b[67] == "obj"@);
                }
                if k == 68 {
                    assert(b[68] == "lib"@);
                }
                if k == 69 {
                    assert(b[69] == "wasm"@);
                }
                if k == 70 {
                    assert(b[70] == "db"@);
                }
                if k == 71 {
                    assert(b[71] == "sqlite"@);
                }
                if k == 72 {
                    assert(b[72] == "sqlite3"@);
                }
                if k == 73 {
                    assert(b[73] == "dat"@);
                }
                if k == 74 {
                    assert(b[74] == "bin"@);
                }
                if k == 75 {
                    assert(b[75] == "pdb"@);
                }
                if k == 76 {
                    assert(b[76] == "drawio"@);
                }
            }
        }
    } else if x == "tsv"@ {
        assert(l[7] == x);
        assert(x[0] == 't' && x[1] == 's' && x[2] == 'v');
        assert(!b.contains(x)) by {
            if b.contains(x) {
                let k = choose|k: int| 0 <= k < b.len() && b[k] == x;
                if k == 0 {
                    assert(b[0] == "doc"@);
                }
                if k == 1 {
                    assert(b[1] == "docx"@);
                }
                if k == 2 {
                    assert(b[2] == "dot"@);
                }
                if k == 3 {
                    assert(b[3] == "dotx"@);
                }
                if k == 4 {
                    assert(b[4] == "docm"@);
                }
                if k == 5 {
                    assert(b[5] == "xls"@);
                }
                if k == 6 {
                    assert(b[6] == "xlsx"@);
                }
                if k == 7 {
                    assert(b[7] == "xlsm"@);
                }
                if k == 8 {
                    assert(b[8] == "xlsb"@);
                }
                if k == 9 {
                    assert(b[9] == "ppt"@);
                }
                if k == 10 {
                    assert(b[10] == "pptx"@);
                }
                if k == 11 {
                    assert(b[11] == "pps"@);
                }
                if k == 12 {
                    assert(b[12] == "ppsx"@);
                }
                if k == 13 {
                    assert(b[13] == "pdf"@);
                }
                if k == 14 {
                    assert(b[14] == "rtf"@);
                }
                if k == 15 {
                    assert(b[15] == "odt"@);
                }
                if k == 16 {
                    assert(b[16] == "ods"@);
                }
                if k == 17 {
                    assert(b[17] == "odp"@);
                }
                if k == 18 {
                    assert(b[18] == "wps"@);
                }
                if k == 19 {
                    assert(b[19] == "et"@);
                }
                if k == 20 {
                    assert(b[20] == "dps"@);
                }
                if k == 21 {
                    assert(b[21] == "png"@);
                }
                if k == 22 {
                    assert(b[22] == "jpg"@);
                }
                if k == 23 {
                    assert(b[23] == "jpeg"@);
                }
                if k == 24 {
                    assert(b[24] == "gif"@);
                }
                if k == 25 {
                    assert(b[25] == "bmp"@);
                }
                if k == 26 {
                    assert(b[26] == "ico"@);
                }
                if k == 27 {
                    assert(b[27] == "webp"@);
                }
                if k == 28 {
                    assert(b[28] == "tif"@);
                }
                if k == 29 {
                    assert(b[29] == "tiff"@);
                }
                if k == 30 {
                    assert(b[30] == "emf"@);
                }
                if k == 31 {
                    assert(b[31] == "wmf"@);
                }
                if k == 32 {
                    assert(b[32] == "heic"@);
                }
                if k == 33 {
                    assert(b[33] == "psd"@);
                }
                if k == 34 {
                    assert(b[34] == "ttf"@);
                }
                if k == 35 {
                    assert(b[35] == "otf"@);
                }
                if k == 36 {
                    assert(b[36] == "woff"@);
                }
                if k == 37 {
                    assert(b[37] == "woff2"@);
                }
                if k == 38 {
                    assert(b[38] == "eot"@);
                }
                if k == 39 {
                    assert(b[39] == "mp3"@);
                }
                if k == 40 {
                    assert(b[40] == "wav"@);
                }
                if k == 41 {
                    assert(b[41] == "ogg"@);
                }
                if k == 42 {
                    assert(b[42] == "flac"@);
                }
                if k == 43 {
                    assert(b[43] == "mp4"@);
                }
                if k == 44 {
                    assert(b[44] == "avi"@);
                }
                if k == 45 {
                    assert(b[45] == "mov"@);
                }
                if k == 46 {
                    assert(b[46] == "mkv"@);
                }
                if k == 47 {
                    assert(b[47] == "wmv"@);
                }
                if k == 48 {
                    assert(b[48] == "flv"@);
                }
                if k == 49 {
                    assert(b[49] == "zip"@);
                }
                if k == 50 {
                    assert(b[50] == "rar"@);
                }
                if k == 51 {
                    assert(b[51] == "7z"@);
                }
                if k == 52 {
                    assert(b[52] == "tar"@);
                }
                if k == 53 {
                    assert(b[53] == "gz"@);
                }
                if k == 54 {
                    assert(b[54] == "bz2"@);
                }
                if k == 55 {
                    assert(b[55] == "xz"@);
                }
                if k == 56 {
                    assert(b[56] == "iso"@);
                }
                if k == 57 {
                    assert(b[57] == "exe"@);
                }
                if k == 58 {
                    assert(b[58] == "msi"@);
                }
                if k == 59 {
                    assert(b[59] == "dll"@);
                }
                if k == 60 {
                    assert(b[60] == "so"@);
                }
                if k == 61 {
                    assert(b[61] == "dylib"@);
                }
                if k == 62 {
                    assert(b[62] == "class"@);
                }
                if k == 63 {
                    assert(b[63] == "jar"@);
                }
                if k == 64 {
                    assert(b[64] == "node"@);
                }
                if k == 65 {
                    assert(b[65] == "pyc"@);
                }
                if k == 66 {
                    assert(b[66] == "o"@);
                }
                if k == 67 {
                    assert(b[67] == "obj"@);
                }
                if k == 68 {
                    assert(b[68] == "lib"@);
                }
                if k == 69 {
                    assert(b[69] == "wasm"@);
                }
                if k == 70 {
                    assert(b[70] == "db"@);
                }
                if k == 71 {
                    assert(b[71] == "sqlite"@);
                }
                if k == 72 {
                    assert(b[72] == "sqlite3"@);
                }
                if k == 73 {
                    assert(b[73] == "dat"@);
                }
                if k == 74 {
                    assert(b[74] == "bin"@);
                }
                if k == 75 {
                    assert(b[75] == "pdb"@);
                }
                if k == 76 {
                    assert(b[76] == "drawio"@);
                }
            }
        }
    } else if x == "json"@ {
        assert(l[8] == x);
        assert(x[0] == 'j' && x[1] == 's' && x[2] == 'o' && x[3] == 'n');
        assert(!b.contains(x)) by {
            if b.contains(x) {
                let k = choose|k: int| 0 <= k < b.len() && b[k] == x;
                if k == 0 {
                    assert(b[0] == "doc"@);
                }
                if k == 1 {
                    assert(b[1] == "docx"@);
                }
                if k == 2 {
                    assert(b[2] == "dot"@);
                }
                if k == 3 {
                    assert(b[3] == "dotx"@);
                }
                if k == 4 {
                    assert(b[4] == "docm"@);
                }
                if k == 5 {
                    assert(b[5] == "xls"@);
                }
                if k == 6 {
                    assert(b[6] == "xlsx"@);
                }
                if k == 7 {
                    assert(b[7] == "xlsm"@);
                }
                if k == 8 {
                    assert(b[8] == "xlsb"@);
                }
                if k == 9 {
                    assert(b[9] == "ppt"@);
                }
                if k == 10 {
                    assert(b[10] == "pptx"@);
                }
                if k == 11 {
                    assert(b[11] == "pps"@);
                }
                if k == 12 {
                    assert(b[12] == "ppsx"@);
                }
                if k == 13 {
                    assert(b[13] == "pdf"@);
                }
                if k == 14 {
                    assert(b[14] == "rtf"@);
                }
                if k == 15 {
                    assert(b[15] == "odt"@);
                }
                if k == 16 {
                    assert(b[16] == "ods"@);
                }
                if k == 17 {
                    assert(b[17] == "odp"@);
                }
                if k == 18 {
                    assert(b[18] == "wps"@);
                }
                if k == 19 {
                    assert(b[19] == "et"@);
                }
                if k == 20 {
                    assert(b[20] == "dps"@);
                }
                if k == 21 {
                    assert(b[21] == "png"@);
                }
                if k == 22 {
                    assert(b[22] == "jpg"@);
                }
                if k == 23 {
                    assert(b[23] == "jpeg"@);
                }
                if k == 24 {
                    assert(b[24] == "gif"@);
                }
                if k == 25 {
                    assert(b[25] == "bmp"@);
                }
                if k == 26 {
                    assert(b[26] == "ico"@);
                }
                if k == 27 {
                    assert(b[27] == "webp"@);
                }
                if k == 28 {
                    assert(b[28] == "tif"@);
                }
                if k == 29 {
                    assert(b[29] == "tiff"@);
                }
                if k == 30 {
                    assert(b[30] == "emf"@);
                }
                if k == 31 {
                    assert(b[31] == "wmf"@);
                }
                if k == 32 {
                    assert(b[32] == "heic"@);
                }
                if k == 33 {
                    assert(b[33] == "psd"@);
                }
                if k == 34 {
                    assert(b[34] == "ttf"@);
                }
                if k == 35 {
                    assert(b[35] == "otf"@);
                }
                if k == 36 {
                    assert(b[36] == "woff"@);
                }
                if k == 37 {
                    assert(b[37] == "woff2"@);
                }
                if k == 38 {
                    assert(b[38] == "eot"@);
                }
                if k == 39 {
                    assert(b[39] == "mp3"@);
                }
                if k == 40 {
                    assert(b[40] == "wav"@);
                }
                if k == 41 {
                    assert(b[41] == "ogg"@);
                }
                if k == 42 {
                    assert(b[42] == "flac"@);
                }
                if k == 43 {
                    assert(b[43] == "mp4"@);
                }
                if k == 44 {
                    assert(b[44] == "avi"@);
                }
                if k == 45 {
                    assert(b[45] == "mov"@);
                }
                if k == 46 {
                    assert(b[46] == "mkv"@);
                }
                if k == 47 {
                    assert(b[47] == "wmv"@);
                }
                if k == 48 {
                    assert(b[48] == "flv"@);
                }
                if k == 49 {
                    assert(b[49] == "zip"@);
                }
                if k == 50 {
                    assert(b[50] == "rar"@);
                }
                if k == 51 {
                    assert(b[51] == "7z"@);
                }
                if k == 52 {
                    assert(b[52] == "tar"@);
                }
                if k == 53 {
                    assert(b[53] == "gz"@);
                }
                if k == 54 {
                    assert(b[54] == "bz2"@);
                }
                if k == 55 {
                    assert(b[55] == "xz"@);
                }
                if k == 56 {
                    assert(b[56] == "iso"@);
                }
                if k == 57 {
                    assert(b[57] == "exe"@);
                }
                if k == 58 {
                    assert(b[58] == "msi"@);
                }
                if k == 59 {
                    assert(b[59] == "dll"@);
                }
                if k == 60 {
                    assert(b[60] == "so"@);
                }
                if k == 61 {
                    assert(b[61] == "dylib"@);
                }
                if k == 62 {
                    assert(b[62] == "class"@);
                }
                if k == 63 {
                    assert(b[63] == "jar"@);
                }
                if k == 64 {
                    assert(b[64] == "node"@);
                }
                if k == 65 {
                    assert(b[65] == "pyc"@);
                }
                if k == 66 {
                    assert(b[66] == "o"@);
                }
                if k == 67 {
                    assert(b[67] == "obj"@);
                }
                if k == 68 {
                    assert(b[68] == "lib"@);
                }
                if k == 69 {
                    assert(b[69] == "wasm"@);
                }
                if k == 70 {
                    assert(b[70] == "db"@);
                }
                if k == 71 {
                    assert(b[71] == "sqlite"@);
                }
                if k == 72 {
                    assert(b[72] == "sqlite3"@);
                }
                if k == 73 {
                    assert(b[73] == "dat"@);
                }
                if k == 74 {
                    assert(b[74] == "bin"@);
                }
                if k == 75 {
                    assert(b[75] == "pdb"@);
                }
                if k == 76 {
                    assert(b[76] == "drawio"@);
                }
            }
        }
    } else if x == "jsonc"@ {
        assert(l[9] == x);
        assert(x[0] == 'j' && x[1] == 's' && x[2] == 'o' && x[3] == 'n' && x[4] == 'c');
        assert(!b.contains(x)) by {
            if b.contains(x) {
                let k = choose|k: int| 0 <= k < b.len() && b[k] == x;
                if k == 0 {
                    assert(b[0] == "doc"@);
                }
                if k == 1 {
                    assert(b[1] == "docx"@);
                }
                if k == 2 {
                    assert(b[2] == "dot"@);
                }
                if k == 3 {
                    assert(b[3] == "dotx"@);
                }
                if k == 4 {
                    assert(b[4] == "docm"@);
                }
                if k == 5 {
                    assert(b[5] == "xls"@);
                }
                if k == 6 {
                    assert(b[6] == "xlsx"@);
                }
                if k == 7 {
                    assert(b[7] == "xlsm"@);
                }
                if k == 8 {
                    assert(b[8] == "xlsb"@);
                }
                if k == 9 {
                    assert(b[9] == "ppt"@);
                }
                if k == 10 {
                    assert(b[10] == "pptx"@);
                }
                if k == 11 {
                    assert(b[11] == "pps"@);
                }
                if k == 12 {
                    assert(b[12] == "ppsx"@);
                }
                if k == 13 {
                    assert(b[13] == "pdf"@);
                }
                if k == 14 {
                    assert(b[14] == "rtf"@);
                }
                if k == 15 {
                    assert(b[15] == "odt"@);
                }
                if k == 16 {
                    assert(b[16] == "ods"@);
                }
                if k == 17 {
                    assert(b[17] == "odp"@);
                }
                if k == 18 {
                    assert(b[18] == "wps"@);
                }
                if k == 19 {
                    assert(b[19] == "et"@);
                }
                if k == 20 {
                    assert(b[20] == "dps"@);
                }
                if k == 21 {
                    assert(b[21] == "png"@);
                }
                if k == 22 {
                    assert(b[22] == "jpg"@);
                }
                if k == 23 {
                    assert(b[23] == "jpeg"@);
                }
                if k == 24 {
                    assert(b[24] == "gif"@);
                }
                if k == 25 {
                    assert(b[25] == "bmp"@);
                }
                if k == 26 {
                    assert(b[26] == "ico"@);
                }
                if k == 27 {
                    assert(b[27] == "webp"@);
                }
                if k == 28 {
                    assert(b[28] == "tif"@);
                }
                if k == 29 {
                    assert(b[29] == "tiff"@);
                }
                if k == 30 {
                    assert(b[30] == "emf"@);
                }
                if k == 31 {
                    assert(b[31] == "wmf"@);
                }
                if k == 32 {
                    assert(b[32] == "heic"@);
                }
                if k == 33 {
                    assert(b[33] == "psd"@);
                }
                if k == 34 {
                    assert(b[34] == "ttf"@);
                }
                if k == 35 {
                    assert(b[35] == "otf"@);
                }
                if k == 36 {
                    assert(b[36] == "woff"@);
                }
                if k == 37 {
                    assert(b[37] == "woff2"@);
                }
                if k == 38 {
                    assert(b[38] == "eot"@);
                }
                if k == 39 {
                    assert(b[39] == "mp3"@);
                }
                if k == 40 {
                    assert(b[40] == "wav"@);
                }
                if k == 41 {
                    assert(b[41] == "ogg"@);
                }
                if k == 42 {
                    assert(b[42] == "flac"@);
                }
                if k == 43 {
                    assert(b[43] == "mp4"@);
                }
                if k == 44 {
                    assert(b[44] == "avi"@);
                }
                if k == 45 {
                    assert(b[45] == "mov"@);
                }
                if k == 46 {
                    assert(b[46] == "mkv"@);
                }
                if k == 47 {
                    assert(b[47] == "wmv"@);
                }
                if k == 48 {
                    assert(b[48] == "flv"@);
                }
                if k == 49 {
                    assert(b[49] == "zip"@);
                }
                if k == 50 {
                    assert(b[50] == "rar"@);
                }
                if k == 51 {
                    assert(b[51] == "7z"@);
                }
                if k == 52 {
                    assert(b[52] == "tar"@);
                }
                if k == 53 {
                    assert(b[53] == "gz"@);
                }
                if k == 54 {
                    assert(b[54] == "bz2"@);
                }
                if k == 55 {
                    assert(b[55] == "xz"@);
                }
                if k == 56 {
                    assert(b[56] == "iso"@);
                }
                if k == 57 {
                    assert(b[57] == "exe"@);
                }
                if k == 58 {
                    assert(b[58] == "msi"@);
                }
                if k == 59 {
                    assert(b[59] == "dll"@);
                }
                if k == 60 {
                    assert(b[60] == "so"@);
                }
                if k == 61 {
                    assert(b[61] == "dylib"@);
                }
                if k == 62 {
                    assert(b[62] == "class"@);
                }
                if k == 63 {
                    assert(b[63] == "jar"@);
                }
                if k == 64 {
                    assert(b[64] == "node"@);
                }
                if k == 65 {
                    assert(b[65] == "pyc"@);
                }
                if k == 66 {
                    assert(b[66] == "o"@);
                }
                if k == 67 {
                    assert(b[67] == "obj"@);
                }
                if k == 68 {
                    assert(b[68] == "lib"@);
                }
                if k == 69 {
                    assert(b[69] == "wasm"@);
                }
                if k == 70 {
                    assert(b[70] == "db"@);
                }
                if k == 71 {
                    assert(b[71] == "sqlite"@);
                }
                if k == 72 {
                    assert(b[72] == "sqlite3"@);
                }
                if k == 73 {
                    assert(b[73] == "dat"@);
                }
                if k == 74 {
                    assert(b[74] == "bin"@);
                }
                if k == 75 {
                    assert(b[75] == "pdb"@);
                }
                if k == 76 {
                    assert(b[76] == "drawio"@);
                }
            }
        }
    } else if x == "json5"@ {
        assert(l[10] == x);
        assert(x[0] == 'j' && x[1] == 's' && x[2] == 'o' && x[3] == 'n' && x[4] == '5');
        assert(!b.contains(x)) by {
            if b.contains(x) {
                let k = choose|k: int| 0 <= k < b.len() && b[k] == x;
                if k == 0 {
                    assert(b[0] == "doc"@);
                }
                if k == 1 {
                    assert(b[1] == "docx"@);
                }
                if k == 2 {
                    assert(b[2] == "dot"@);
                }
                if k == 3 {
                    assert(b[3] == "dotx"@);
                }
                if k == 4 {
                    assert(b[4] == "docm"@);
                }
                if k == 5 {
                    assert(b[5] == "xls"@);
                }
                if k == 6 {
                    assert(b[6] == "xlsx"@);
                }
                if k == 7 {
                    assert(b[7] == "xlsm"@);
                }
                if k == 8 {
                    assert(b[8] == "xlsb"@);
                }
                if k == 9 {
                    assert(b[9] == "ppt"@);
                }
                if k == 10 {
                    assert(b[10] == "pptx"@);
                }
                if k == 11 {
                    assert(b[11] == "pps"@);
                }
                if k == 12 {
                    assert(b[12] == "ppsx"@);
                }
                if k == 13 {
                    assert(b[13] == "pdf"@);
                }
                if k == 14 {
                    assert(b[14] == "rtf"@);
                }
                if k == 15 {
                    assert(b[15] == "odt"@);
                }
                if k == 16 {
                    assert(b[16] == "ods"@);
                }
                if k == 17 {
                    assert(b[17] == "odp"@);
                }
                if k == 18 {
                    assert(b[18] == "wps"@);
                }
                if k == 19 {
                    assert(b[19] == "et"@);
                }
                if k == 20 {
                    assert(b[20] == "dps"@);
                }
                if k == 21 {
                    assert(b[21] == "png"@);
                }
                if k == 22 {
                    assert(b[22] == "jpg"@);
                }
                if k == 23 {
                    assert(b[23] == "jpeg"@);
                }
                if k == 24 {
                    assert(b[24] == "gif"@);
                }
                if k == 25 {
                    assert(b[25] == "bmp"@);
                }
                if k == 26 {
                    assert(b[26] == "ico"@);
                }
                if k == 27 {
                    assert(b[27] == "webp"@);
                }
                if k == 28 {
                    assert(b[28] == "tif"@);
                }
                if k == 29 {
                    assert(b[29] == "tiff"@);
                }
                if k == 30 {
                    assert(b[30] == "emf"@);
                }
                if k == 31 {
                    assert(b[31] == "wmf"@);
                }
                if k == 32 {
                    assert(b[32] == "heic"@);
                }
                if k == 33 {
                    assert(b[33] == "psd"@);
                }
                if k == 34 {
                    assert(b[34] == "ttf"@);
                }
                if k == 35 {
                    assert(b[35] == "otf"@);
                }
                if k == 36 {
                    assert(b[36] == "woff"@);
                }
                if k == 37 {
                    assert(b[37] == "woff2"@);
                }
                if k == 38 {
                    assert(b[38] == "eot"@);
                }
                if k == 39 {
                    assert(b[39] == "mp3"@);
                }
                if k == 40 {
                    assert(b[40] == "wav"@);
                }
                if k == 41 {
                    assert(b[41] == "ogg"@);
                }
                if k == 42 {
                    assert(b[42] == "flac"@);
                }
                if k == 43 {
                    assert(b[43] == "mp4"@);
                }
                if k == 44 {
                    assert(b[44] == "avi"@);
                }
                if k == 45 {
                    assert(b[45] == "mov"@);
                }
                if k == 46 {
                    assert(b[46] == "mkv"@);
                }
                if k == 47 {
                    assert(b[47] == "wmv"@);
                }
                if k == 48 {
                    assert(b[48] == "flv"@);
                }
                if k == 49 {
                    assert(b[49] == "zip"@);
                }
                if k == 50 {
                    assert(b[50] == "rar"@);
                }
                if k == 51 {
                    assert(b[51] == "7z"@);
                }
                if k == 52 {
                    assert(b[52] == "tar"@);
                }
                if k == 53 {
                    assert(b[53] == "gz"@);
                }
                if k == 54 {
                    assert(b[54] == "bz2"@);
                }
                if k == 55 {
                    assert(b[55] == "xz"@);
                }
                if k == 56 {
                    assert(b[56] == "iso"@);
                }
                if k == 57 {
                    assert(b[57] == "exe"@);
                }
                if k == 58 {
                    assert(b[58] == "msi"@);
                }
                if k == 59 {
                    assert(b[59] == "dll"@);
                }
                if k == 60 {
                    assert(b[60] == "so"@);
                }
                if k == 61 {
                    assert(b[61] == "dylib"@);
                }
                if k == 62 {
                    assert(b[62] == "class"@);
                }
                if k == 63 {
                    assert(b[63] == "jar"@);
                }
                if k == 64 {
                    assert(b[64] == "node"@);
                }
                if k == 65 {
                    assert(b[65] == "pyc"@);
                }
                if k == 66 {
                    assert(b[66] == "o"@);
                }
                if k == 67 {
                    assert(b[67] == "obj"@);
                }
                if k == 68 {
                    assert(b[68] == "lib"@);
                }
                if k == 69 {
                    assert(b[69] == "wasm"@);
                }
                if k == 70 {
                    assert(b[70] == "db"@);
                }
                if k == 71 {
                    assert(b[71] == "sqlite"@);
                }
                if k == 72 {
                    assert(b[72] == "sqlite3"@);
                }
                if k == 73 {
                    assert(b[73] == "dat"@);
                }
                if k == 74 {
                    assert(b[74] == "bin"@);
                }
                if k == 75 {
                    assert(b[75] == "pdb"@);
                }
                if k == 76 {
                    assert(b[76] == "drawio"@);
                }
            }
        }
    } else if x == "yml"@ {
        assert(l[11] == x);
        assert(x[0] == 'y' && x[1] == 'm' && x[2] == 'l');
        assert(!b.contains(x)) by {
            if b.contains(x) {
                let k = choose|k: int| 0 <= k < b.len() && b[k] == x;
                if k == 0 {
                    assert(b[0] == "doc"@);
                }
                if k == 1 {
                    assert(b[1] == "docx"@);
                }
                if k == 2 {
                    assert(b[2] == "dot"@);
                }
                if k == 3 {
                    assert(b[3] == "dotx"@);
                }
                if k == 4 {
                    assert(b[4] == "docm"@);
                }
                if k == 5 {
                    assert(b[5] == "xls"@);
                }
                if k == 6 {
                    assert(b[6] == "xlsx"@);
                }
                if k == 7 {
                    assert(b[7] == "xlsm"@);
                }
                if k == 8 {
                    assert(b[8] == "xlsb"@);
                }
                if k == 9 {
                    assert(b[9] == "ppt"@);
                }
                if k == 10 {
                    assert(b[10] == "pptx"@);
                }
                if k == 11 {
                    assert(b[11] == "pps"@);
                }
                if k == 12 {
                    assert(b[12] == "ppsx"@);
                }
                if k == 13 {
                    assert(b[13] == "pdf"@);
                }
                if k == 14 {
                    assert(b[14] == "rtf"@);
                }
                if k == 15 {
                    assert(b[15] == "odt"@);
                }
                if k == 16 {
                    assert(b[16] == "ods"@);
                }
                if k == 17 {
                    assert(b[17] == "odp"@);
                }
                if k == 18 {
                    assert(b[18] == "wps"@);
                }
                if k == 19 {
                    assert(b[19] == "et"@);
                }
                if k == 20 {
                    assert(b[20] == "dps"@);
                }
                if k == 21 {
                    assert(b[21] == "png"@);
                }
                if k == 22 {
                    assert(b[22] == "jpg"@);
                }
                if k == 23 {
                    assert(b[23] == "jpeg"@);
                }
                if k == 24 {
                    assert(b[24] == "gif"@);
                }
                if k == 25 {
                    assert(b[25] == "bmp"@);
                }
                if k == 26 {
                    assert(b[26] == "ico"@);
                }
                if k == 27 {
                    assert(b[27] == "webp"@);
                }
                if k == 28 {
                    assert(b[28] == "tif"@);
                }
                if k == 29 {
                    assert(b[29] == "tiff"@);
                }
                if k == 30 {
                    assert(b[30] == "emf"@);
                }
                if k == 31 {
                    assert(b[31] == "wmf"@);
                }
                if k == 32 {
                    assert(b[32] == "heic"@);
                }
                if k == 33 {
                    assert(b[33] == "psd"@);
                }
                if k == 34 {
                    assert(b[34] == "ttf"@);
                }
                if k == 35 {
                    assert(b[35] == "otf"@);
                }
                if k == 36 {
                    assert(b[36] == "woff"@);
                }
                if k == 37 {
                    assert(b[37] == "woff2"@);
                }
                if k == 38 {
                    assert(b[38] == "eot"@);
                }
                if k == 39 {
                    assert(b[39] == "mp3"@);
                }
                if k == 40 {
                    assert(b[40] == "wav"@);
                }
                if k == 41 {
                    assert(b[41] == "ogg"@);
                }
                if k == 42 {
                    assert(b[42] == "flac"@);
                }
                if k == 43 {
                    assert(b[43] == "mp4"@);
                }
                if k == 44 {
                    assert(b[44] == "avi"@);
                }
                if k == 45 {
                    assert(b[45] == "mov"@);
                }
                if k == 46 {
                    assert(b[46] == "mkv"@);
                }
                if k == 47 {
                    assert(b[47] == "wmv"@);
                }
                if k == 48 {
                    assert(b[48] == "flv"@);
                }
                if k == 49 {
                    assert(b[49] == "zip"@);
                }
                if k == 50 {
                    assert(b[50] == "rar"@);
                }
                if k == 51 {
                    assert(b[51] == "7z"@);
                }
                if k == 52 {
                    assert(b[52] == "tar"@);
                }
                if k == 53 {
                    assert(b[53] == "gz"@);
                }
                if k == 54 {
                    assert(b[54] == "bz2"@);
                }
                if k == 55 {
                    assert(b[55] == "xz"@);
                }
                if k == 56 {
                    assert(b[56] == "iso"@);
                }
                if k == 57 {
                    assert(b[57] == "exe"@);
                }
                if k == 58 {
                    assert(b[58] == "msi"@);
                }
                if k == 59 {
                    assert(b[59] == "dll"@);
                }
                if k == 60 {
                    assert(b[60] == "so"@);
                }
                if k == 61 {
                    assert(b[61] == "dylib"@);
                }
                if k == 62 {
                    assert(b[62] == "class"@);
                }
                if k == 63 {
                    assert(b[63] == "jar"@);
                }
                if k == 64 {
                    assert(b[64] == "node"@);
                }
                if k == 65 {
                    assert(b[65] == "pyc"@);
                }
                if k == 66 {
                    assert(b[66] == "o"@);
                }
                if k == 67 {
                    assert(b[67] == "obj"@);
                }
                if k == 68 {
                    assert(b[68] == "lib"@);
                }
                if k == 69 {
                    assert(b[69] == "wasm"@);
                }
                if k == 70 {
                    assert(b[70] == "db"@);
                }
                if k == 71 {
                    assert(b[71] == "sqlite"@);
                }
                if k == 72 {
                    assert(b[72] == "sqlite3"@);
                }
                if k == 73 {
                    assert(b[73] == "dat"@);
                }
                if k == 74 {
                    assert(b[74] == "bin"@);
                }
                if k == 75 {
                    assert(b[75] == "pdb"@);
                }
                if k == 76 {
                    assert(b[76] == "drawio"@);
                }
            }
        }
    } else if x == "yaml"@ {
        assert(l[12] == x);
        assert(x[0] == 'y' && x[1] == 'a' && x[2] == 'm' && x[3] == 'l');
        assert(!b.contains(x)) by {
            if b.contains(x) {
                let k = choose|k: int| 0 <= k < b.len() && b[k] == x;
                if k == 0 {
                    assert(b[0] == "doc"@);
                }
                if k == 1 {
                    assert(b[1] == "docx"@);
                }
                if k == 2 {
                    assert(b[2] == "dot"@);
                }
                if k == 3 {
                    assert(b[3] == "dotx"@);
                }
                if k == 4 {
                    assert(b[4] == "docm"@);
                }
                if k == 5 {
                    assert(b[5] == "xls"@);
                }
                if k == 6 {
                    assert(b[6] == "xlsx"@);
                }
                if k == 7 {
                    assert(b[7] == "xlsm"@);
                }
                if k == 8 {
                    assert(b[8] == "xlsb"@);
                }
                if k == 9 {
                    assert(b[9] == "ppt"@);
                }
                if k == 10 {
                    assert(b[10] == "pptx"@);
                }
                if k == 11 {
                    assert(b[11] == "pps"@);
                }
                if k == 12 {
                    assert(b[12] == "ppsx"@);
                }
                if k == 13 {
                    assert(b[13] == "pdf"@);
                }
                if k == 14 {
                    assert(b[14] == "rtf"@);
                }
                if k == 15 {
                    assert(b[15] == "odt"@);
                }
                if k == 16 {
                    assert(b[16] == "ods"@);
                }
                if k == 17 {
                    assert(b[17] == "odp"@);
                }
                if k == 18 {
                    assert(b[18] == "wps"@);
                }
                if k == 19 {
                    assert(b[19] == "et"@);
                }
                if k == 20 {
                    assert(b[20] == "dps"@);
                }
                if k == 21 {
                    assert(b[21] == "png"@);
                }
                if k == 22 {
                    assert(b[22] == "jpg"@);
                }
                if k == 23 {
                    assert(b[23] == "jpeg"@);
                }
                if k == 24 {
                    assert(b[24] == "gif"@);
                }
                if k == 25 {
                    assert(b[25] == "bmp"@);
                }
                if k == 26 {
                    assert(b[26] == "ico"@);
                }
                if k == 27 {
                    assert(b[27] == "webp"@);
                }
                if k == 28 {
                    assert(b[28] == "tif"@);
                }
                if k == 29 {
                    assert(b[29] == "tiff"@);
                }
                if k == 30 {
                    assert(b[30] == "emf"@);
                }
                if k == 31 {
                    assert(b[31] == "wmf"@);
                }
                if k == 32 {
                    assert(b[32] == "heic"@);
                }
                if k == 33 {
                    assert(b[33] == "psd"@);
                }
                if k == 34 {
                    assert(b[34] == "ttf"@);
                }
                if k == 35 {
                    assert(b[35] == "otf"@);
                }
                if k == 36 {
                    assert(b[36] == "woff"@);
                }
                if k == 37 {
                    assert(b[37] == "woff2"@);
                }
                if k == 38 {
                    assert(b[38] == "eot"@);
                }
                if k == 39 {
                    assert(b[39] == "mp3"@);
                }
                if k == 40 {
                    assert(b[40] == "wav"@);
                }
                if k == 41 {
                    assert(b[41] == "ogg"@);
                }
                if k == 42 {
                    assert(b[42] == "flac"@);
                }
                if k == 43 {
                    assert(b[43] == "mp4"@);
                }
                if k == 44 {
                    assert(b[44] == "avi"@);
                }
                if k == 45 {
                    assert(b[45] == "mov"@);
                }
                if k == 46 {
                    assert(b[46] == "mkv"@);
                }
                if k == 47 {
                    assert(b[47] == "wmv"@);
                }
                if k == 48 {
                    assert(b[48] == "flv"@);
                }
                if k == 49 {
                    assert(b[49] == "zip"@);
                }
                if k == 50 {
                    assert(b[50] == "rar"@);
                }
                if k == 51 {
                    assert(b[51] == "7z"@);
                }
                if k == 52 {
                    assert(b[52] == "tar"@);
                }
                if k == 53 {
                    assert(b[53] == "gz"@);
                }
                if k == 54 {
                    assert(b[54] == "bz2"@);
                }
                if k == 55 {
                    assert(b[55] == "xz"@);
                }
                if k == 56 {
                    assert(b[56] == "iso"@);
                }
                if k == 57 {
                    assert(b[57] == "exe"@);
                }
                if k == 58 {
                    assert(b[58] == "msi"@);
                }
                if k == 59 {
                    assert(b[59] == "dll"@);
                }
                if k == 60 {
                    assert(b[60] == "so"@);
                }
                if k == 61 {
                    assert(b[61] == "dylib"@);
                }
                if k == 62 {
                    assert(b[62] == "class"@);
                }
                if k == 63 {
                    assert(b[63] == "jar"@);
                }
                if k == 64 {
                    assert(b[64] == "node"@);
                }
                if k == 65 {
                    assert(b[65] == "pyc"@);
                }
                if k == 66 {
                    assert(b[66] == "o"@);
                }
                if k == 67 {
                    assert(b[67] == "obj"@);
                }
                if k == 68 {
                    assert(b[68] == "lib"@);
                }
                if k == 69 {
                    assert(b[69] == "wasm"@);
                }
                if k == 70 {
                    assert(b[70] == "db"@);
                }
                if k == 71 {
                    assert(b[71] == "sqlite"@);
                }
                if k == 72 {
                    assert(b[72] == "sqlite3"@);
                }
                if k == 73 {
                    assert(b[73] == "dat"@);
                }
                if k == 74 {
                    assert(b[74] == "bin"@);
                }
                if k == 75 {
                    assert(b[75] == "pdb"@);
                }
                if k == 76 {
                    assert(b[76] == "drawio"@);
                }
            }
        }
    } else if x == "toml"@ {
        assert(l[13] == x);
        assert(x[0] == 't' && x[1] == 'o' && x[2] == 'm' && x[3] == 'l');
        assert(!b.contains(x)) by {
            if b.contains(x) {
                let k = choose|k: int| 0 <= k < b.len() && b[k] == x;
                if k == 0 {
                    assert(b[0] == "doc"@);
                }
                if k == 1 {
                    assert(b[1] == "docx"@);
                }
                if k == 2 {
                    assert(b[2] == "dot"@);
                }
                if k == 3 {
                    assert(b[3] == "dotx"@);
                }
                if k == 4 {
                    assert(b[4] == "docm"@);
                }
                if k == 5 {
                    assert(b[5] == "xls"@);
                }
                if k == 6 {
                    assert(b[6] == "xlsx"@);
                }
                if k == 7 {
                    assert(b[7] == "xlsm"@);
                }
                if k == 8 {
                    assert(b[8] == "xlsb"@);
                }
                if k == 9 {
                    assert(b[9] == "ppt"@);
                }
                if k == 10 {
                    assert(b[10] == "pptx"@);
                }
                if k == 11 {
                    assert(b[11] == "pps"@);
                }
                if k == 12 {
                    assert(b[12] == "ppsx"@);
                }
                if k == 13 {
                    assert(b[13] == "pdf"@);
                }
                if k == 14 {
                    assert(b[14] == "rtf"@);
                }
                if k == 15 {
                    assert(b[15] == "odt"@);
                }
                if k == 16 {
                    assert(b[16] == "ods"@);
                }
                if k == 17 {
                    assert(b[17] == "odp"@);
                }
                if k == 18 {
                    assert(b[18] == "wps"@);
                }
                if k == 19 {
                    assert(b[19] == "et"@);
                }
                if k == 20 {
                    assert(b[20] == "dps"@);
                }
                if k == 21 {
                    assert(b[21] == "png"@);
                }
                if k == 22 {
                    assert(b[22] == "jpg"@);
                }
                if k == 23 {
                    assert(b[23] == "jpeg"@);
                }
                if k == 24 {
                    assert(b[24] == "gif"@);
                }
                if k == 25 {
                    assert(b[25] == "bmp"@);
                }
                if k == 26 {
                    assert(b[26] == "ico"@);
                }
                if k == 27 {
                    assert(b[27] == "webp"@);
                }
                if k == 28 {
                    assert(b[28] == "tif"@);
                }
                if k == 29 {
                    assert(b[29] == "tiff"@);
                }
                if k == 30 {
                    assert(b[30] == "emf"@);
                }
                if k == 31 {
                    assert(b[31] == "wmf"@);
                }
                if k == 32 {
                    assert(b[32] == "heic"@);
                }
                if k == 33 {
                    assert(b[33] == "psd"@);
                }
                if k == 34 {
                    assert(b[34] == "ttf"@);
                }
                if k == 35 {
                    assert(b[35] == "otf"@);
                }
                if k == 36 {
                    assert(b[36] == "woff"@);
                }
                if k == 37 {
                    assert(b[37] == "woff2"@);
                }
                if k == 38 {
                    assert(b[38] == "eot"@);
                }
                if k == 39 {
                    assert(b[39] == "mp3"@);
                }
                if k == 40 {
                    assert(b[40] == "wav"@);
                }
                if k == 41 {
                    assert(b[41] == "ogg"@);
                }
                if k == 42 {
                    assert(b[42] == "flac"@);
                }
                if k == 43 {
                    assert(b[43] == "mp4"@);
                }
                if k == 44 {
                    assert(b[44] == "avi"@);
                }
                if k == 45 {
                    assert(b[45] == "mov"@);
                }
                if k == 46 {
                    assert(b[46] == "mkv"@);
                }
                if k == 47 {
                    assert(b[47] == "wmv"@);
                }
                if k == 48 {
                    assert(b[48] == "flv"@);
                }
                if k == 49 {
                    assert(b[49] == "zip"@);
                }
                if k == 50 {
                    assert(b[50] == "rar"@);
                }
                if k == 51 {
                    assert(b[51] == "7z"@);
                }
                if k == 52 {
                    assert(b[52] == "tar"@);
                }
                if k == 53 {
                    assert(b[53] == "gz"@);
                }
                if k == 54 {
                    assert(b[54] == "bz2"@);
                }
                if k == 55 {
                    assert(b[55] == "xz"@);
                }
                if k == 56 {
                    assert(b[56] == "iso"@);
                }
                if k == 57 {
                    assert(b[57] == "exe"@);
                }
                if k == 58 {
                    assert(b[58] == "msi"@);
                }
                if k == 59 {
                    assert(b[59] == "dll"@);
                }
                if k == 60 {
                    assert(b[60] == "so"@);
                }
                if k == 61 {
                    assert(b[61] == "dylib"@);
                }
                if k == 62 {
                    assert(b[62] == "class"@);
                }
                if k == 63 {
                    assert(b[63] == "jar"@);
                }
                if k == 64 {
                    assert(b[64] == "node"@);
                }
                if k == 65 {
                    assert(b[65] == "pyc"@);
                }
                if k == 66 {
                    assert(b[66] == "o"@);
                }
                if k == 67 {
                    assert(b[67] == "obj"@);
                }
                if k == 68 {
                    assert(b[68] == "lib"@);
                }
                if k == 69 {
                    assert(b[69] == "wasm"@);
                }
                if k == 70 {
                    assert(b[70] == "db"@);
                }
                if k == 71 {
                    assert(b[71] == "sqlite"@);
                }
                if k == 72 {
                    assert(b[72] == "sqlite3"@);
                }
                if k == 73 {
                    assert(b[73] == "dat"@);
                }
                if k == 74 {
                    assert(b[74] == "bin"@);
                }
                if k == 75 {
                    assert(b[75] == "pdb"@);
                }
                if k == 76 {
                    assert(b[76] == "drawio"@);
                }
            }
        }
    } else if x == "ini"@ {
        assert(l[14] == x);
        assert(x[0] == 'i' && x[1] == 'n' && x[2] == 'i');
        assert(!b.contains(x)) by {
            if b.contains(x) {
                let k = choose|k: int| 0 <= k < b.len() && b[k] == x;
                if k == 0 {
                    assert(b[0] == "doc"@);
                }
                if k == 1 {
                    assert(b[1] == "docx"@);
                }
                if k == 2 {
                    assert(b[2] == "dot"@);
                }
                if k == 3 {
                    assert(b[3] == "dotx"@);
                }
                if k == 4 {
                    assert(b[4] == "docm"@);
                }
                if k == 5 {
                    assert(b[5] == "xls"@);
                }
                if k == 6 {
                    assert(b[6] == "xlsx"@);
                }
                if k == 7 {
                    assert(b[7] == "xlsm"@);
                }
                if k == 8 {
                    assert(b[8] == "xlsb"@);
                }
                if k == 9 {
                    assert(b[9] == "ppt"@);
                }
                if k == 10 {
                    assert(b[10] == "pptx"@);
                }
                if k == 11 {
                    assert(b[11] == "pps"@);
                }
                if k == 12 {
                    assert(b[12] == "ppsx"@);
                }
                if k == 13 {
                    assert(b[13] == "pdf"@);
                }
                if k == 14 {
                    assert(b[14] == "rtf"@);
                }
                if k == 15 {
                    assert(b[15] == "odt"@);
                }
                if k == 16 {
                    assert(b[16] == "ods"@);
                }
                if k == 17 {
                    assert(b[17] == "odp"@);
                }
                if k == 18 {
                    assert(b[18] == "wps"@);
                }
                if k == 19 {
                    assert(b[19] == "et"@);
                }
                if k == 20 {
                    assert(b[20] == "dps"@);
                }
                if k == 21 {
                    assert(b[21] == "png"@);
                }
                if k == 22 {
                    assert(b[22] == "jpg"@);
                }
                if k == 23 {
                    assert(b[23] == "jpeg"@);
                }
                if k == 24 {
                    assert(b[24] == "gif"@);
                }
                if k == 25 {
                    assert(b[25] == "bmp"@);
                }
                if k == 26 {
                    assert(b[26] == "ico"@);
                }
                if k == 27 {
                    assert(b[27] == "webp"@);
                }
                if k == 28 {
                    assert(b[28] == "tif"@);
                }
                if k == 29 {
                    assert(b[29] == "tiff"@);
                }
                if k == 30 {
                    assert(b[30] == "emf"@);
                }
                if k == 31 {
                    assert(b[31] == "wmf"@);
                }
                if k == 32 {
                    assert(b[32] == "heic"@);
                }
                if k == 33 {
                    assert(b[33] == "psd"@);
                }
                if k == 34 {
                    assert(b[34] == "ttf"@);
                }
                if k == 35 {
                    assert(b[35] == "otf"@);
                }
                if k == 36 {
                    assert(b[36] == "woff"@);
                }
                if k == 37 {
                    assert(b[37] == "woff2"@);
                }
                if k == 38 {
                    assert(b[38] == "eot"@);
                }
                if k == 39 {
                    assert(b[39] == "mp3"@);
                }
                if k == 40 {
                    assert(b[40] == "wav"@);
                }
                if k == 41 {
                    assert(b[41] == "ogg"@);
                }
                if k == 42 {
                    assert(b[42] == "flac"@);
                }
                if k == 43 {
                    assert(b[43] == "mp4"@);
                }
                if k == 44 {
                    assert(b[44] == "avi"@);
                }
                if k == 45 {
                    assert(b[45] == "mov"@);
                }
                if k == 46 {
                    assert(b[46] == "mkv"@);
                }
                if k == 47 {
                    assert(b[47] == "wmv"@);
                }
                if k == 48 {
                    assert(b[48] == "flv"@);
                }
                if k == 49 {
                    assert(b[49] == "zip"@);
                }
                if k == 50 {
                    assert(b[50] == "rar"@);
                }
                if k == 51 {
                    assert(b[51] == "7z"@);
                }
                if k == 52 {
                    assert(b[52] == "tar"@);
                }
                if k == 53 {
                    assert(b[53] == "gz"@);
                }
                if k == 54 {
                    assert(b[54] == "bz2"@);
                }
                if k == 55 {
                    assert(b[55] == "xz"@);
                }
                if k == 56 {
                    assert(b[56] == "iso"@);
                }
                if k == 57 {
                    assert(b[57] == "exe"@);
                }
                if k == 58 {
                    assert(b[58] == "msi"@);
                }
                if k == 59 {
                    assert(b[59] == "dll"@);
                }
                if k == 60 {
                    assert(b[60] == "so"@);
                }
                if k == 61 {
                    assert(b[61] == "dylib"@);
                }
                if k == 62 {
                    assert(b[62] == "class"@);
                }
                if k == 63 {
                    assert(b[63] == "jar"@);
                }
                if k == 64 {
                    assert(b[64] == "node"@);
                }
                if k == 65 {
                    assert(b[65] == "pyc"@);
                }
                if k == 66 {
                    assert(b[66] == "o"@);
                }
                if k == 67 {
                    assert(b[67] == "obj"@);
                }
                if k == 68 {
                    assert(b[68] == "lib"@);
                }
                if k == 69 {
                    assert(b[69] == "wasm"@);
                }
                if k == 70 {
                    assert(b[70] == "db"@);
                }
                if k == 71 {
                    assert(b[71] == "sqlite"@);
                }
                if k == 72 {
                    assert(b[72] == "sqlite3"@);
                }
                if k == 73 {
                    assert(b[73] == "dat"@);
                }
                if k == 74 {
                    assert(b[74] == "bin"@);
                }
                if k == 75 {
                    assert(b[75] == "pdb"@);
                }
                if k == 76 {
                    assert(b[76] == "drawio"@);
                }
            }
        }
    } else if x == "cfg"@ {
        assert(l[15] == x);
        assert(x[0] == 'c' && x[1] == 'f' && x[2] == 'g');
        assert(!b.contains(x)) by {
            if b.contains(x) {
                let k = choose|k: int| 0 <= k < b.len() && b[k] == x;
                if k == 0 {
                    assert(b[0] == "doc"@);
                }
                if k == 1 {
                    assert(b[1] == "docx"@);
                }
                if k == 2 {
                    assert(b[2] == "dot"@);
                }
                if k == 3 {
                    assert(b[3] == "dotx"@);
                }
                if k == 4 {
                    assert(b[4] == "docm"@);
                }
                if k == 5 {
                    assert(b[5] == "xls"@);
                }
                if k == 6 {
                    assert(b[6] == "xlsx"@);
                }
                if k == 7 {
                    assert(b[7] == "xlsm"@);
                }
                if k == 8 {
                    assert(b[8] == "xlsb"@);
                }
                if k == 9 {
                    assert(b[9] == "ppt"@);
                }
                if k == 10 {
                    assert(b[10] == "pptx"@);
                }
                if k == 11 {
                    assert(b[11] == "pps"@);
                }
                if k == 12 {
                    assert(b[12] == "ppsx"@);
                }
                if k == 13 {
                    assert(b[13] == "pdf"@);
                }
                if k == 14 {
                    assert(b[14] == "rtf"@);
                }
                if k == 15 {
                    assert(b[15] == "odt"@);
                }
                if k == 16 {
                    assert(b[16] == "ods"@);
                }
                if k == 17 {
                    assert(b[17] == "odp"@);
                }
                if k == 18 {
                    assert(b[18] == "wps"@);
                }
                if k == 19 {
                    assert(b[19] == "et"@);
                }
                if k == 20 {
                    assert(b[20] == "dps"@);
                }
                if k == 21 {
                    assert(b[21] == "png"@);
                }
                if k == 22 {
                    assert(b[22] == "jpg"@);
                }
                if k == 23 {
                    assert(b[23] == "jpeg"@);
                }
                if k == 24 {
                    assert(b[24] == "gif"@);
                }
                if k == 25 {
                    assert(b[25] == "bmp"@);
                }
                if k == 26 {
                    assert(b[26] == "ico"@);
                }
                if k == 27 {
                    assert(b[27] == "webp"@);
                }
                if k == 28 {
                    assert(b[28] == "tif"@);
                }
                if k == 29 {
                    assert(b[29] == "tiff"@);
                }
                if k == 30 {
                    assert(b[30] == "emf"@);
                }
                if k == 31 {
                    assert(b[31] == "wmf"@);
                }
                if k == 32 {
                    assert(b[32] == "heic"@);
                }
                if k == 33 {
                    assert(b[33] == "psd"@);
                }
                if k == 34 {
                    assert(b[34] == "ttf"@);
                }
                if k == 35 {
                    assert(b[35] == "otf"@);
                }
                if k == 36 {
                    assert(b[36] == "woff"@);
                }
                if k == 37 {
                    assert(b[37] == "woff2"@);
                }
                if k == 38 {
                    assert(b[38] == "eot"@);
                }
                if k == 39 {
                    assert(b[39] == "mp3"@);
                }
                if k == 40 {
                    assert(b[40] == "wav"@);
                }
                if k == 41 {
                    assert(b[41] == "ogg"@);
                }
                if k == 42 {
                    assert(b[42] == "flac"@);
                }
                if k == 43 {
                    assert(b[43] == "mp4"@);
                }
                if k == 44 {
                    assert(b[44] == "avi"@);
                }
                if k == 45 {
                    assert(b[45] == "mov"@);
                }
                if k == 46 {
                    assert(b[46] == "mkv"@);
                }
                if k == 47 {
                    assert(b[47] == "wmv"@);
                }
                if k == 48 {
                    assert(b[48] == "flv"@);
                }
                if k == 49 {
                    assert(b[49] == "zip"@);
                }
                if k == 50 {
                    assert(b[50] == "rar"@);
                }
                if k == 51 {
                    assert(b[51] == "7z"@);
                }
                if k == 52 {
                    assert(b[52] == "tar"@);
                }
                if k == 53 {
                    assert(b[53] == "gz"@);
                }
                if k == 54 {
                    assert(b[54] == "bz2"@);
                }
                if k == 55 {
                    assert(b[55] == "xz"@);
                }
                if k == 56 {
                    assert(b[56] == "iso"@);
                }
                if k == 57 {
                    assert(b[57] == "exe"@);
                }
                if k == 58 {
                    assert(b[58] == "msi"@);
                }
                if k == 59 {
                    assert(b[59] == "dll"@);
                }
                if k == 60 {
                    assert(b[60] == "so"@);
                }
                if k == 61 {
                    assert(b[61] == "dylib"@);
                }
                if k == 62 {
                    assert(b[62] == "class"@);
                }
                if k == 63 {
                    assert(b[63] == "jar"@);
                }
                if k == 64 {
                    assert(b[64] == "node"@);
                }
                if k == 65 {
                    assert(b[65] == "pyc"@);
                }
                if k == 66 {
                    assert(b[66] == "o"@);
                }
                if k == 67 {
                    assert(b[67] == "obj"@);
                }
                if k == 68 {
                    assert(b[68] == "lib"@);
                }
                if k == 69 {
                    assert(b[69] == "wasm"@);
                }
                if k == 70 {
                    assert(b[70] == "db"@);
                }
                if k == 71 {
                    assert(b[71] == "sqlite"@);
                }
                if k == 72 {
                    assert(b[72] == "sqlite3"@);
                }
                if k == 73 {
                    assert(b[73] == "dat"@);
                }
                if k == 74 {
                    assert(b[74] == "bin"@);
                }
                if k == 75 {
                    assert(b[75] == "pdb"@);
                }
                if k == 76 {
                    assert(b[76] == "drawio"@);
                }
            }
        }
    } else if x == "conf"@ {
        assert(l[16] == x);
        assert(x[0] == 'c' && x[1] == 'o' && x[2] == 'n' && x[3] == 'f');
        assert(!b.contains(x)) by {
            if b.contains(x) {
                let k = choose|k: int| 0 <= k < b.len() && b[k] == x;
                if k == 0 {
                    assert(b[0] == "doc"@);
                }
                if k == 1 {
                    assert(b[1] == "docx"@);
                }
                if k == 2 {
                    assert(b[2] == "dot"@);
                }
                if k == 3 {
                    assert(b[3] == "dotx"@);
                }
                if k == 4 {
                    assert(b[4] == "docm"@);
                }
                if k == 5 {
                    assert(b[5] == "xls"@);
                }
                if k == 6 {
                    assert(b[6] == "xlsx"@);
                }
                if k == 7 {
                    assert(b[7] == "xlsm"@);
                }
                if k == 8 {
                    assert(b[8] == "xlsb"@);
                }
                if k == 9 {
                    assert(b[9] == "ppt"@);
                }
                if k == 10 {
                    assert(b[10] == "pptx"@);
                }
                if k == 11 {
                    assert(b[11] == "pps"@);
                }
                if k == 12 {
                    assert(b[12] == "ppsx"@);
                }
                if k == 13 {
                    assert(b[13] == "pdf"@);
                }
                if k == 14 {
                    assert(b[14] == "rtf"@);
                }
                if k == 15 {
                    assert(b[15] == "odt"@);
                }
                if k == 16 {
                    assert(b[16] == "ods"@);
                }
                if k == 17 {
                    assert(b[17] == "odp"@);
                }
                if k == 18 {
                    assert(b[18] == "wps"@);
                }
                if k == 19 {
                    assert(b[19] == "et"@);
                }
                if k == 20 {
                    assert(b[20] == "dps"@);
                }
                if k == 21 {
                    assert(b[21] == "png"@);
                }
                if k == 22 {
                    assert(b[22] == "jpg"@);
                }
                if k == 23 {
                    assert(b[23] == "jpeg"@);
                }
                if k == 24 {
                    assert(b[24] == "gif"@);
                }
                if k == 25 {
                    assert(b[25] == "bmp"@);
                }
                if k == 26 {
                    assert(b[26] == "ico"@);
                }
                if k == 27 {
                    assert(b[27] == "webp"@);
                }
                if k == 28 {
                    assert(b[28] == "tif"@);
                }
                if k == 29 {
                    assert(b[29] == "tiff"@);
                }
                if k == 30 {
                    assert(b[30] == "emf"@);
                }
                if k == 31 {
                    assert(b[31] == "wmf"@);
                }
                if k == 32 {
                    assert(b[32] == "heic"@);
                }
                if k == 33 {
                    assert(b[33] == "psd"@);
                }
                if k == 34 {
                    assert(b[34] == "ttf"@);
                }
                if k == 35 {
                    assert(b[35] == "otf"@);
                }
                if k == 36 {
                    assert(b[36] == "woff"@);
                }
                if k == 37 {
                    assert(b[37] == "woff2"@);
                }
                if k == 38 {
                    assert(b[38] == "eot"@);
                }
                if k == 39 {
                    assert(b[39] == "mp3"@);
                }
                if k == 40 {
                    assert(b[40] == "wav"@);
                }
                if k == 41 {
                    assert(b[41] == "ogg"@);
                }
                if k == 42 {
                    assert(b[42] == "flac"@);
                }
                if k == 43 {
                    assert(b[43] == "mp4"@);
                }
                if k == 44 {
                    assert(b[44] == "avi"@);
                }
                if k == 45 {
                    assert(b[45] == "mov"@);
                }
                if k == 46 {
                    assert(b[46] == "mkv"@);
                }
                if k == 47 {
                    assert(b[47] == "wmv"@);
                }
                if k == 48 {
                    assert(b[48] == "flv"@);
                }
                if k == 49 {
                    assert(b[49] == "zip"@);
                }
                if k == 50 {
                    assert(b[50] == "rar"@);
                }
                if k == 51 {
                    assert(b[51] == "7z"@);
                }
                if k == 52 {
                    assert(b[52] == "tar"@);
                }
                if k == 53 {
                    assert(b[53] == "gz"@);
                }
                if k == 54 {
                    assert(b[54] == "bz2"@);
                }
                if k == 55 {
                    assert(b[55] == "xz"@);
                }
                if k == 56 {
                    assert(b[56] == "iso"@);
                }
                if k == 57 {
                    assert(b[57] == "exe"@);
                }
                if k == 58 {
                    assert(b[58] == "msi"@);
                }
                if k == 59 {
                    assert(b[59] == "dll"@);
                }
                if k == 60 {
                    assert(b[60] == "so"@);
                }
                if k == 61 {
                    assert(b[61] == "dylib"@);
                }
                if k == 62 {
                    assert(b[62] == "class"@);
                }
                if k == 63 {
                    assert(b[63] == "jar"@);
                }
                if k == 64 {
                    assert(b[64] == "node"@);
                }
                if k == 65 {
                    assert(b[65] == "pyc"@);
                }
                if k == 66 {
                    assert(b[66] == "o"@);
                }
                if k == 67 {
                    assert(b[67] == "obj"@);
                }
                if k == 68 {
                    assert(b[68] == "lib"@);
                }
                if k == 69 {
                    assert(b[69] == "wasm"@);
                }
                if k == 70 {
                    assert(b[70] == "db"@);
                }
                if k == 71 {
                    assert(b[71] == "sqlite"@);
                }
                if k == 72 {
                    assert(b[72] == "sqlite3"@);
                }
                if k == 73 {
                    assert(b[73] == "dat"@);
                }
                if k == 74 {
                    assert(b[74] == "bin"@);
                }
                if k == 75 {
                    assert(b[75] == "pdb"@);
                }
                if k == 76 {
                    assert(b[76] == "drawio"@);
                }
            }
        }
    } else if x == "properties"@ {
        assert(l[17] == x);
        assert(x[0] == 'p' && x[1] == 'r' && x[2] == 'o' && x[3] == 'p' && x[4] == 'e' && x[5] == 'r' && x[6] == 't' && x[7] == 'i' && x[8] == 'e' && x[9] == 's');
        assert(!b.contains(x)) by {
            if b.contains(x) {
                let k = choose|k: int| 0 <= k < b.len() && b[k] == x;
                if k == 0 {
                    assert(b[0] == "doc"@);
                }
                if k == 1 {
                    assert(b[1] == "docx"@);
                }
                if k == 2 {
                    assert(b[2] == "dot"@);
                }
                if k == 3 {
                    assert(b[3] == "dotx"@);
                }
                if k == 4 {
                    assert(b[4] == "docm"@);
                }
                if k == 5 {
                    assert(b[5] == "xls"@);
                }
                if k == 6 {
                    assert(b[6] == "xlsx"@);
                }
                if k == 7 {
                    assert(b[7] == "xlsm"@);
                }
                if k == 8 {
                    assert(b[8] == "xlsb"@);
                }
                if k == 9 {
                    assert(b[9] == "ppt"@);
                }
                if k == 10 {
                    assert(b[10] == "pptx"@);
                }
                if k == 11 {
                    assert(b[11] == "pps"@);
                }
                if k == 12 {
                    assert(b[12] == "ppsx"@);
                }
                if k == 13 {
                    assert(b[13] == "pdf"@);
                }
                if k == 14 {
                    assert(b[14] == "rtf"@);
                }
                if k == 15 {
                    assert(b[15] == "odt"@);
                }
                if k == 16 {
                    assert(b[16] == "ods"@);
                }
                if k == 17 {
                    assert(b[17] == "odp"@);
                }
                if k == 18 {
                    assert(b[18] == "wps"@);
                }
                if k == 19 {
                    assert(b[19] == "et"@);
                }
                if k == 20 {
                    assert(b[20] == "dps"@);
                }
                if k == 21 {
                    assert(b[21] == "png"@);
                }
                if k == 22 {
                    assert(b[22] == "jpg"@);
                }
                if k == 23 {
                    assert(b[23] == "jpeg"@);
                }
                if k == 24 {
                    assert(b[24] == "gif"@);
                }
                if k == 25 {
                    assert(b[25] == "bmp"@);
                }
                if k == 26 {
                    assert(b[26] == "ico"@);
                }
                if k == 27 {
                    assert(b[27] == "webp"@);
                }
                if k == 28 {
                    assert(b[28] == "tif"@);
                }
                if k == 29 {
                    assert(b[29] == "tiff"@);
                }
                if k == 30 {
                    assert(b[30] == "emf"@);
                }
                if k == 31 {
                    assert(b[31] == "wmf"@);
                }
                if k == 32 {
                    assert(b[32] == "heic"@);
                }
                if k == 33 {
                    assert(b[33] == "psd"@);
                }
                if k == 34 {
                    assert(b[34] == "ttf"@);
                }
                if k == 35 {
                    assert(b[35] == "otf"@);
                }
                if k == 36 {
                    assert(b[36] == "woff"@);
                }
                if k == 37 {
                    assert(b[37] == "woff2"@);
                }
                if k == 38 {
                    assert(b[38] == "eot"@);
                }
                if k == 39 {
                    assert(b[39] == "mp3"@);
                }
                if k == 40 {
                    assert(b[40] == "wav"@);
                }
                if k == 41 {
                    assert(b[41] == "ogg"@);
                }
                if k == 42 {
                    assert(b[42] == "flac"@);
                }
                if k == 43 {
                    assert(b[43] == "mp4"@);
                }
                if k == 44 {
                    assert(b[44] == "avi"@);
                }
                if k == 45 {
                    assert(b[45] == "mov"@);
                }
                if k == 46 {
                    assert(b[46] == "mkv"@);
                }
                if k == 47 {
                    assert(b[47] == "wmv"@);
                }
                if k == 48 {
                    assert(b[48] == "flv"@);
                }
                if k == 49 {
                    assert(b[49] == "zip"@);
                }
                if k == 50 {
                    assert(b[50] == "rar"@);
                }
                if k == 51 {
                    assert(b[51] == "7z"@);
                }
                if k == 52 {
                    assert(b[52] == "tar"@);
                }
                if k == 53 {
                    assert(b[53] == "gz"@);
                }
                if k == 54 {
                    assert(b[54] == "bz2"@);
                }
                if k == 55 {
                    assert(b[55] == "xz"@);
                }
                if k == 56 {
                    assert(b[56] == "iso"@);
                }
                if k == 57 {
                    assert(b[57] == "exe"@);
                }
                if k == 58 {
                    assert(b[58] == "msi"@);
                }
                if k == 59 {
                    assert(b[59] == "dll"@);
                }
                if k == 60 {
                    assert(b[60] == "so"@);
                }
                if k == 61 {
                    assert(b[61] == "dylib"@);
                }
                if k == 62 {
                    assert(b[62] == "class"@);
                }
                if k == 63 {
                    assert(b[63] == "jar"@);
                }
                if k == 64 {
                    assert(b[64] == "node"@);
                }
                if k == 65 {
                    assert(b[65] == "pyc"@);
                }
                if k == 66 {
                    assert(b[66] == "o"@);
                }
                if k == 67 {
                    assert(b[67] == "obj"@);
                }
                if k == 68 {
                    assert(b[68] == "lib"@);
                }
                if k == 69 {
                    assert(b[69] == "wasm"@);
                }
                if k == 70 {
                    assert(b[70] == "db"@);
                }
                if k == 71 {
                    assert(b[71] == "sqlite"@);
                }
                if k == 72 {
                    assert(b[72] == "sqlite3"@);
                }
                if k == 73 {
                    assert(b[73] == "dat"@);
                }
                if k == 74 {
                    assert(b[74] == "bin"@);
                }
                if k == 75 {
                    assert(b[75] == "pdb"@);
                }
                if k == 76 {
                    assert(b[76] == "drawio"@);
                }
            }
        }
    } else if x == "env"@ {
        assert(l[18] == x);
        assert(x[0] == 'e' && x[1] == 'n' && x[2] == 'v');
        assert(!b.contains(x)) by {
            if b.contains(x) {
                let k = choose|k: int| 0 <= k < b.len() && b[k] == x;
                if k == 0 {
                    assert(b[0] == "doc"@);
                }
                if k == 1 {
                    assert(b[1] == "docx"@);
                }
                if k == 2 {
                    assert(b[2] == "dot"@);
                }
                if k == 3 {
                    assert(b[3] == "dotx"@);
                }
                if k == 4 {
                    assert(b[4] == "docm"@);
                }
                if k == 5 {
                    assert(b[5] == "xls"@);
                }
                if k == 6 {
                    assert(b[6] == "xlsx"@);
                }
                if k == 7 {
                    assert(b[7] == "xlsm"@);
                }
                if k == 8 {
                    assert(b[8] == "xlsb"@);
                }
                if k == 9 {
                    assert(b[9] == "ppt"@);
                }
                if k == 10 {
                    assert(b[10] == "pptx"@);
                }
                if k == 11 {
                    assert(b[11] == "pps"@);
                }
                if k == 12 {
                    assert(b[12] == "ppsx"@);
                }
                if k == 13 {
                    assert(b[13] == "pdf"@);
                }
                if k == 14 {
                    assert(b[14] == "rtf"@);
                }
                if k == 15 {
                    assert(b[15] == "odt"@);
                }
                if k == 16 {
                    assert(b[16] == "ods"@);
                }
                if k == 17 {
                    assert(b[17] == "odp"@);
                }
                if k == 18 {
                    assert(b[18] == "wps"@);
                }
                if k == 19 {
                    assert(b[19] == "et"@);
                }
                if k == 20 {
                    assert(b[20] == "dps"@);
                }
                if k == 21 {
                    assert(b[21] == "png"@);
                }
                if k == 22 {
                    assert(b[22] == "jpg"@);
                }
                if k == 23 {
                    assert(b[23] == "jpeg"@);
                }
                if k == 24 {
                    assert(b[24] == "gif"@);
                }
                if k == 25 {
                    assert(b[25] == "bmp"@);
                }
                if k == 26 {
                    assert(b[26] == "ico"@);
                }
                if k == 27 {
                    assert(b[27] == "webp"@);
                }
                if k == 28 {
                    assert(b[28] == "tif"@);
                }
                if k == 29 {
                    assert(b[29] == "tiff"@);
                }
                if k == 30 {
                    assert(b[30] == "emf"@);
                }
                if k == 31 {
                    assert(b[31] == "wmf"@);
                }
                if k == 32 {
                    assert(b[32] == "heic"@);
                }
                if k == 33 {
                    assert(b[33] == "psd"@);
                }
                if k == 34 {
                    assert(b[34] == "ttf"@);
                }
                if k == 35 {
                    assert(b[35] == "otf"@);
                }
                if k == 36 {
                    assert(b[36] == "woff"@);
                }
                if k == 37 {
                    assert(b[37] == "woff2"@);
                }
                if k == 38 {
                    assert(b[38] == "eot"@);
                }
                if k == 39 {
                    assert(b[39] == "mp3"@);
                }
                if k == 40 {
                    assert(b[40] == "wav"@);
                }
                if k == 41 {
                    assert(b[41] == "ogg"@);
                }
                if k == 42 {
                    assert(b[42] == "flac"@);
                }
                if k == 43 {
                    assert(b[43] == "mp4"@);
                }
                if k == 44 {
                    assert(b[44] == "avi"@);
                }
                if k == 45 {
                    assert(b[45] == "mov"@);
                }
                if k == 46 {
                    assert(b[46] == "mkv"@);
                }
                if k == 47 {
                    assert(b[47] == "wmv"@);
                }
                if k == 48 {
                    assert(b[48] == "flv"@);
                }
                if k == 49 {
                    assert(b[49] == "zip"@);
                }
                if k == 50 {
                    assert(b[50] == "rar"@);
                }
                if k == 51 {
                    assert(b[51] == "7z"@);
                }
                if k == 52 {
                    assert(b[52] == "tar"@);
                }
                if k == 53 {
                    assert(b[53] == "gz"@);
                }
                if k == 54 {
                    assert(b[54] == "bz2"@);
                }
                if k == 55 {
                    assert(b[55] == "xz"@);
                }
                if k == 56 {
                    assert(b[56] == "iso"@);
                }
                if k == 57 {
                    assert(b[57] == "exe"@);
                }
                if k == 58 {
                    assert(b[58] == "msi"@);
                }
                if k == 59 {
                    assert(b[59] == "dll"@);
                }
                if k == 60 {
                    assert(b[60] == "so"@);
                }
                if k == 61 {
                    assert(b[61] == "dylib"@);
                }
                if k == 62 {
                    assert(b[62] == "class"@);
                }
                if k == 63 {
                    assert(b[63] == "jar"@);
                }
                if k == 64 {
                    assert(b[64] == "node"@);
                }
                if k == 65 {
                    assert(b[65] == "pyc"@);
                }
                if k == 66 {
                    assert(b[66] == "o"@);
                }
                if k == 67 {
                    assert(b[67] == "obj"@);
                }
                if k == 68 {
                    assert(b[68] == "lib"@);
                }
                if k == 69 {
                    assert(b[69] == "wasm"@);
                }
                if k == 70 {
                    assert(b[70] == "db"@);
                }
                if k == 71 {
                    assert(b[71] == "sqlite"@);
                }
                if k == 72 {
                    assert(b[72] == "sqlite3"@);
                }
                if k == 73 {
                    assert(b[73] == "dat"@);
                }
                if k == 74 {
                    assert(b[74] == "bin"@);
                }
                if k == 75 {
                    assert(b[75] == "pdb"@);
                }
                if k == 76 {
                    assert(b[76] == "drawio"@);
                }
            }
        }
    } else if x == "xml"@ {
        assert(l[19] == x);
        assert(x[0] == 'x' && x[1] == 'm' && x[2] == 'l');
        assert(!b.contains(x)) by {
            if b.contains(x) {
                let k = choose|k: int| 0 <= k < b.len() && b[k] == x;
                if k == 0 {
                    assert(b[0] == "doc"@);
                }
                if k == 1 {
                    assert(b[1] == "docx"@);
                }
                if k == 2 {
                    assert(b[2] == "dot"@);
                }
                if k == 3 {
                    assert(b[3] == "dotx"@);
                }
                if k == 4 {
                    assert(b[4] == "docm"@);
                }
                if k == 5 {
                    assert(b[5] == "xls"@);
                }
                if k == 6 {
                    assert(b[6] == "xlsx"@);
                }
                if k == 7 {
                    assert(b[7] == "xlsm"@);
                }
                if k == 8 {
                    assert(b[8] == "xlsb"@);
                }
                if k == 9 {
                    assert(b[9] == "ppt"@);
                }
                if k == 10 {
                    assert(b[10] == "pptx"@);
                }
                if k == 11 {
                    assert(b[11] == "pps"@);
                }
                if k == 12 {
                    assert(b[12] == "ppsx"@);
                }
                if k == 13 {
                    assert(b[13] == "pdf"@);
                }
                if k == 14 {
                    assert(b[14] == "rtf"@);
                }
                if k == 15 {
                    assert(b[15] == "odt"@);
                }
                if k == 16 {
                    assert(b[16] == "ods"@);
                }
                if k == 17 {
                    assert(b[17] == "odp"@);
                }
                if k == 18 {
                    assert(b[18] == "wps"@);
                }
                if k == 19 {
                    assert(b[19] == "et"@);
                }
                if k == 20 {
                    assert(b[20] == "dps"@);
                }
                if k == 21 {
                    assert(b[21] == "png"@);
                }
                if k == 22 {
                    assert(b[22] == "jpg"@);
                }
                if k == 23 {
                    assert(b[23] == "jpeg"@);
                }
                if k == 24 {
                    assert(b[24] == "gif"@);
                }
                if k == 25 {
                    assert(b[25] == "bmp"@);
                }
                if k == 26 {
                    assert(b[26] == "ico"@);
                }
                if k == 27 {
                    assert(b[27] == "webp"@);
                }
                if k == 28 {
                    assert(b[28] == "tif"@);
                }
                if k == 29 {
                    assert(b[29] == "tiff"@);
                }
                if k == 30 {
                    assert(b[30] == "emf"@);
                }
                if k == 31 {
                    assert(b[31] == "wmf"@);
                }
                if k == 32 {
                    assert(b[32] == "heic"@);
                }
                if k == 33 {
                    assert(b[33] == "psd"@);
                }
                if k == 34 {
                    assert(b[34] == "ttf"@);
                }
                if k == 35 {
                    assert(b[35] == "otf"@);
                }
                if k == 36 {
                    assert(b[36] == "woff"@);
                }
                if k == 37 {
                    assert(b[37] == "woff2"@);
                }
                if k == 38 {
                    assert(b[38] == "eot"@);
                }
                if k == 39 {
                    assert(b[39] == "mp3"@);
                }
                if k == 40 {
                    assert(b[40] == "wav"@);
                }
                if k == 41 {
                    assert(b[41] == "ogg"@);
                }
                if k == 42 {
                    assert(b[42] == "flac"@);
                }
                if k == 43 {
                    assert(b[43] == "mp4"@);
                }
                if k == 44 {
                    assert(b[44] == "avi"@);
                }
                if k == 45 {
                    assert(b[45] == "mov"@);
                }
                if k == 46 {
                    assert(b[46] == "mkv"@);
                }
                if k == 47 {
                    assert(b[47] == "wmv"@);
                }
                if k == 48 {
                    assert(b[48] == "flv"@);
                }
                if k == 49 {
                    assert(b[49] == "zip"@);
                }
                if k == 50 {
                    assert(b[50] == "rar"@);
                }
                if k == 51 {
                    assert(b[51] == "7z"@);
                }
                if k == 52 {
                    assert(b[52] == "tar"@);
                }
                if k == 53 {
                    assert(b[53] == "gz"@);
                }
                if k == 54 {
                    assert(b[54] == "bz2"@);
                }
                if k == 55 {
                    assert(b[55] == "xz"@);
                }
                if k == 56 {
                    assert(b[56] == "iso"@);
                }
                if k == 57 {
                    assert(b[57] == "exe"@);
                }
                if k == 58 {
                    assert(b[58] == "msi"@);
                }
                if k == 59 {
                    assert(b[59] == "dll"@);
                }
                if k == 60 {
                    assert(b[60] == "so"@);
                }
                if k == 61 {
                    assert(b[61] == "dylib"@);
                }
                if k == 62 {
                    assert(b[62] == "class"@);
                }
                if k == 63 {
                    assert(b[63] == "jar"@);
                }
                if k == 64 {
                    assert(b[64] == "node"@);
                }
                if k == 65 {
                    assert(b[65] == "pyc"@);
                }
                if k == 66 {
                    assert(b[66] == "o"@);
                }
                if k == 67 {
                    assert(b[67] == "obj"@);
                }
                if k == 68 {
                    assert(b[68] == "lib"@);
                }
                if k == 69 {
                    assert(b[69] == "wasm"@);
                }
                if k == 70 {
                    assert(b[70] == "db"@);
                }
                if k == 71 {
                    assert(b[71] == "sqlite"@);
                }
                if k == 72 {
                    assert(b[72] == "sqlite3"@);
                }
                if k == 73 {
                    assert(b[73] == "dat"@);
                }
                if k == 74 {
                    assert(b[74] == "bin"@);
                }
                if k == 75 {
                    assert(b[75] == "pdb"@);
                }
                if k == 76 {
                    assert(b[76] == "drawio"@);
                }
            }
        }
    } else if x == "xsd"@ {
        assert(l[20] == x);
        assert(x[0] == 'x' && x[1] == 's' && x[2] == 'd');
        assert(!b.contains(x)) by {
            if b.contains(x) {
                let k = choose|k: int| 0 <= k < b.len() && b[k] == x;
                if k == 0 {
                    assert(b[0] == "doc"@);
                }
                if k == 1 {
                    assert(b[1] == "docx"@);
                }
                if k == 2 {
                    assert(b[2] == "dot"@);
                }
                if k == 3 {
                    assert(b[3] == "dotx"@);
                }
                if k == 4 {
                    assert(b[4] == "docm"@);
                }
                if k == 5 {
                    assert(b[5] == "xls"@);
                }
                if k == 6 {
                    assert(b[6] == "xlsx"@);
                }
                if k == 7 {
                    assert(b[7] == "xlsm"@);
                }
                if k == 8 {
                    assert(b[8] == "xlsb"@);
                }
                if k == 9 {
                    assert(b[9] == "ppt"@);
                }
                if k == 10 {
                    assert(b[10] == "pptx"@);
                }
                if k == 11 {
                    assert(b[11] == "pps"@);
                }
                if k == 12 {
                    assert(b[12] == "ppsx"@);
                }
                if k == 13 {
                    assert(b[13] == "pdf"@);
                }
                if k == 14 {
                    assert(b[14] == "rtf"@);
                }
                if k == 15 {
                    assert(b[15] == "odt"@);
                }
                if k == 16 {
                    assert(b[16] == "ods"@);
                }
                if k == 17 {
                    assert(b[17] == "odp"@);
                }
                if k == 18 {
                    assert(b[18] == "wps"@);
                }
                if k == 19 {
                    assert(b[19] == "et"@);
                }
                if k == 20 {
                    assert(b[20] == "dps"@);
                }
                if k == 21 {
                    assert(b[21] == "png"@);
                }
                if k == 22 {
                    assert(b[22] == "jpg"@);
                }
                if k == 23 {
                    assert(b[23] == "jpeg"@);
                }
                if k == 24 {
                    assert(b[24] == "gif"@);
                }
                if k == 25 {
                    assert(b[25] == "bmp"@);
                }
                if k == 26 {
                    assert(b[26] == "ico"@);
                }
                if k == 27 {
                    assert(b[27] == "webp"@);
                }
                if k == 28 {
                    assert(b[28] == "tif"@);
                }
                if k == 29 {
                    assert(b[29] == "tiff"@);
                }
                if k == 30 {
                    assert(b[30] == "emf"@);
                }
                if k == 31 {
                    assert(b[31] == "wmf"@);
                }
                if k == 32 {
                    assert(b[32] == "heic"@);
                }
                if k == 33 {
                    assert(b[33] == "psd"@);
                }
                if k == 34 {
                    assert(b[34] == "ttf"@);
                }
                if k == 35 {
                    assert(b[35] == "otf"@);
                }
                if k == 36 {
                    assert(b[36] == "woff"@);
                }
                if k == 37 {
                    assert(b[37] == "woff2"@);
                }
                if k == 38 {
                    assert(b[38] == "eot"@);
                }
                if k == 39 {
                    assert(b[39] == "mp3"@);
                }
                if k == 40 {
                    assert(b[40] == "wav"@);
                }
                if k == 41 {
                    assert(b[41] == "ogg"@);
                }
                if k == 42 {
                    assert(b[42] == "flac"@);
                }
                if k == 43 {
                    assert(b[43] == "mp4"@);
                }
                if k == 44 {
                    assert(b[44] == "avi"@);
                }
                if k == 45 {
                    assert(b[45] == "mov"@);
                }
                if k == 46 {
                    assert(b[46] == "mkv"@);
                }
                if k == 47 {
                    assert(b[47] == "wmv"@);
                }
                if k == 48 {
                    assert(b[48] == "flv"@);
                }
                if k == 49 {
                    assert(b[49] == "zip"@);
                }
                if k == 50 {
                    assert(b[50] == "rar"@);
                }
                if k == 51 {
                    assert(b[51] == "7z"@);
                }
                if k == 52 {
                    assert(b[52] == "tar"@);
                }
                if k == 53 {
                    assert(b[53] == "gz"@);
                }
                if k == 54 {
                    assert(b[54] == "bz2"@);
                }
                if k == 55 {
                    assert(b[55] == "xz"@);
                }
                if k == 56 {
                    assert(b[56] == "iso"@);
                }
                if k == 57 {
                    assert(b[57] == "exe"@);
                }
                if k == 58 {
                    assert(b[58] == "msi"@);
                }
                if k == 59 {
                    assert(b[59] == "dll"@);
                }
                if k == 60 {
                    assert(b[60] == "so"@);
                }
                if k == 61 {
                    assert(b[61] == "dylib"@);
                }
                if k == 62 {
                    assert(b[62] == "class"@);
                }
                if k == 63 {
                    assert(b[63] == "jar"@);
                }
                if k == 64 {
                    assert(b[64] == "node"@);
                }
                if k == 65 {
                    assert(b[65] == "pyc"@);
                }
                if k == 66 {
                    assert(b[66] == "o"@);
                }
                if k == 67 {
                    assert(b[67] == "obj"@);
                }
                if k == 68 {
                    assert(b[68] == "lib"@);
                }
                if k == 69 {
                    assert(b[69] == "wasm"@);
                }
                if k == 70 {
                    assert(b[70] == "db"@);
                }
                if k == 71 {
                    assert(b[71] == "sqlite"@);
                }
                if k == 72 {
                    assert(b[72] == "sqlite3"@);
                }
                if k == 73 {
                    assert(b[73] == "dat"@);
                }
                if k == 74 {
                    assert(b[74] == "bin"@);
                }
                if k == 75 {
                    assert(b[75] == "pdb"@);
                }
                if k == 76 {
                    assert(b[76] == "drawio"@);
                }
            }
        }
    } else if x == "xsl"@ {
        assert(l[21] == x);
        assert(x[0] == 'x' && x[1] == 's' && x[2] == 'l');
        assert(!b.contains(x)) by {
            if b.contains(x) {
                let k = choose|k: int| 0 <= k < b.len() && b[k] == x;
                if k == 0 {
                    assert(b[0] == "doc"@);
                }
                if k == 1 {
                    assert(b[1] == "docx"@);
                }
                if k == 2 {
                    assert(b[2] == "dot"@);
                }
                if k == 3 {
                    assert(b[3] == "dotx"@);
                }
                if k == 4 {
                    assert(b[4] == "docm"@);
                }
                if k == 5 {
                    assert(b[5] == "xls"@);
                }
                if k == 6 {
                    assert(b[6] == "xlsx"@);
                }
                if k == 7 {
                    assert(b[7] == "xlsm"@);
                }
                if k == 8 {
                    assert(b[8] == "xlsb"@);
                }
                if k == 9 {
                    assert(b[9] == "ppt"@);
                }
                if k == 10 {
                    assert(b[10] == "pptx"@);
                }
                if k == 11 {
                    assert(b[11] == "pps"@);
                }
                if k == 12 {
                    assert(b[12] == "ppsx"@);
                }
                if k == 13 {
                    assert(b[13] == "pdf"@);
                }
                if k == 14 {
                    assert(b[14] == "rtf"@);
                }
                if k == 15 {
                    assert(b[15] == "odt"@);
                }
                if k == 16 {
                    assert(b[16] == "ods"@);
                }
                if k == 17 {
                    assert(b[17] == "odp"@);
                }
                if k == 18 {
                    assert(b[18] == "wps"@);
                }
                if k == 19 {
                    assert(b[19] == "et"@);
                }
                if k == 20 {
                    assert(b[20] == "dps"@);
                }
                if k == 21 {
                    assert(b[21] == "png"@);
                }
                if k == 22 {
                    assert(b[22] == "jpg"@);
                }
                if k == 23 {
                    assert(b[23] == "jpeg"@);
                }
                if k == 24 {
                    assert(b[24] == "gif"@);
                }
                if k == 25 {
                    assert(b[25] == "bmp"@);
                }
                if k == 26 {
                    assert(b[26] == "ico"@);
                }
                if k == 27 {
                    assert(b[27] == "webp"@);
                }
                if k == 28 {
                    assert(b[28] == "tif"@);
                }
                if k == 29 {
                    assert(b[29] == "tiff"@);
                }
                if k == 30 {
                    assert(b[30] == "emf"@);
                }
                if k == 31 {
                    assert(b[31] == "wmf"@);
                }
                if k == 32 {
                    assert(b[32] == "heic"@);
                }
                if k == 33 {
                    assert(b[33] == "psd"@);
                }
                if k == 34 {
                    assert(b[34] == "ttf"@);
                }
                if k == 35 {
                    assert(b[35] == "otf"@);
                }
                if k == 36 {
                    assert(b[36] == "woff"@);
                }
                if k == 37 {
                    assert(b[37] == "woff2"@);
                }
                if k == 38 {
                    assert(b[38] == "eot"@);
                }
                if k == 39 {
                    assert(b[39] == "mp3"@);
                }
                if k == 40 {
                    assert(b[40] == "wav"@);
                }
                if k == 41 {
                    assert(b[41] == "ogg"@);
                }
                if k == 42 {
                    assert(b[42] == "flac"@);
                }
                if k == 43 {
                    assert(b[43] == "mp4"@);
                }
                if k == 44 {
                    assert(b[44] == "avi"@);
                }
                if k == 45 {
                    assert(b[45] == "mov"@);
                }
                if k == 46 {
                    assert(b[46] == "mkv"@);
                }
                if k == 47 {
                    assert(b[47] == "wmv"@);
                }
                if k == 48 {
                    assert(b[48] == "flv"@);
                }
                if k == 49 {
                    assert(b[49] == "zip"@);
                }
                if k == 50 {
                    assert(b[50] == "rar"@);
                }
                if k == 51 {
                    assert(b[51] == "7z"@);
                }
                if k == 52 {
                    assert(b[52] == "tar"@);
                }
                if k == 53 {
                    assert(b[53] == "gz"@);
                }
                if k == 54 {
                    assert(b[54] == "bz2"@);
                }
                if k == 55 {
                    assert(b[55] == "xz"@);
                }
                if k == 56 {
                    assert(b[56] == "iso"@);
                }
                if k == 57 {
                    assert(b[57] == "exe"@);
                }
                if k == 58 {
                    assert(b[58] == "msi"@);
                }
                if k == 59 {
                    assert(b[59] == "dll"@);
                }
                if k == 60 {
                    assert(b[60] == "so"@);
                }
                if k == 61 {
                    assert(b[61] == "dylib"@);
                }
                if k == 62 {
                    assert(b[62] == "class"@);
                }
                if k == 63 {
                    assert(b[63] == "jar"@);
                }
                if k == 64 {
                    assert(b[64] == "node"@);
                }
                if k == 65 {
                    assert(b[65] == "pyc"@);
                }
                if k == 66 {
                    assert(b[66] == "o"@);
                }
                if k == 67 {
                    assert(b[67] == "obj"@);
                }
                if k == 68 {
                    assert(b[68] == "lib"@);
                }
                if k == 69 {
                    assert(b[69] == "wasm"@);
                }
                if k == 70 {
                    assert(b[70] == "db"@);
                }
                if k == 71 {
                    assert(b[71] == "sqlite"@);
                }
                if k == 72 {
                    assert(b[72] == "sqlite3"@);
                }
                if k == 73 {
                    assert(b[73] == "dat"@);
                }
                if k == 74 {
                    assert(b[74] == "bin"@);
                }
                if k == 75 {
                    assert(b[75] == "pdb"@);
                }
                if k == 76 {
                    assert(b[76] == "drawio"@);
                }
            }
        }
    } else if x == "html"@ {
        assert(l[22] == x);
        assert(x[0] == 'h' && x[1] == 't' && x[2] == 'm' && x[3] == 'l');
        assert(!b.contains(x)) by {
            if b.contains(x) {
                let k = choose|k: int| 0 <= k < b.len() && b[k] == x;
                if k == 0 {
                    assert(b[0] == "doc"@);
                }
                if k == 1 {
                    assert(b[1] == "docx"@);
                }
                if k == 2 {
                    assert(b[2] == "dot"@);
                }
                if k == 3 {
                    assert(b[3] == "dotx"@);
                }
                if k == 4 {
                    assert(b[4] == "docm"@);
                }
                if k == 5 {
                    assert(b[5] == "xls"@);
                }
                if k == 6 {
                    assert(b[6] == "xlsx"@);
                }
                if k == 7 {
                    assert(b[7] == "xlsm"@);
                }
                if k == 8 {
                    assert(b[8] == "xlsb"@);
                }
                if k == 9 {
                    assert(b[9] == "ppt"@);
                }
                if k == 10 {
                    assert(b[10] == "pptx"@);
                }
                if k == 11 {
                    assert(b[11] == "pps"@);
                }
                if k == 12 {
                    assert(b[12] == "ppsx"@);
                }
                if k == 13 {
                    assert(b[13] == "pdf"@);
                }
                if k == 14 {
                    assert(b[14] == "rtf"@);
                }
                if k == 15 {
                    assert(b[15] == "odt"@);
                }
                if k == 16 {
                    assert(b[16] == "ods"@);
                }
                if k == 17 {
                    assert(b[17] == "odp"@);
                }
                if k == 18 {
                    assert(b[18] == "wps"@);
                }
                if k == 19 {
                    assert(b[19] == "et"@);
                }
                if k == 20 {
                    assert(b[20] == "dps"@);
                }
                if k == 21 {
                    assert(b[21] == "png"@);
                }
                if k == 22 {
                    assert(b[22] == "jpg"@);
                }
                if k == 23 {
                    assert(b[23] == "jpeg"@);
                }
                if k == 24 {
                    assert(b[24] == "gif"@);
                }
                if k == 25 {
                    assert(b[25] == "bmp"@);
                }
                if k == 26 {
                    assert(b[26] == "ico"@);
                }
                if k == 27 {
                    assert(b[27] == "webp"@);
                }
                if k == 28 {
                    assert(b[28] == "tif"@);
                }
                if k == 29 {
                    assert(b[29] == "tiff"@);
                }
                if k == 30 {
                    assert(b[30] == "emf"@);
                }
                if k == 31 {
                    assert(b[31] == "wmf"@);
                }
                if k == 32 {
                    assert(b[32] == "heic"@);
                }
                if k == 33 {
                    assert(b[33] == "psd"@);
                }
                if k == 34 {
                    assert(b[34] == "ttf"@);
                }
                if k == 35 {
                    assert(b[35] == "otf"@);
                }
                if k == 36 {
                    assert(b[36] == "woff"@);
                }
                if k == 37 {
                    assert(b[37] == "woff2"@);
                }
                if k == 38 {
                    assert(b[38] == "eot"@);
                }
                if k == 39 {
                    assert(b[39] == "mp3"@);
                }
                if k == 40 {
                    assert(b[40] == "wav"@);
                }
                if k == 41 {
                    assert(b[41] == "ogg"@);
                }
                if k == 42 {
                    assert(b[42] == "flac"@);
                }
                if k == 43 {
                    assert(b[43] == "mp4"@);
                }
                if k == 44 {
                    assert(b[44] == "avi"@);
                }
                if k == 45 {
                    assert(b[45] == "mov"@);
                }
                if k == 46 {
                    assert(b[46] == "mkv"@);
                }
                if k == 47 {
                    assert(b[47] == "wmv"@);
                }
                if k == 48 {
                    assert(b[48] == "flv"@);
                }
                if k == 49 {
                    assert(b[49] == "zip"@);
                }
                if k == 50 {
                    assert(b[50] == "rar"@);
                }
                if k == 51 {
                    assert(b[51] == "7z"@);
                }
                if k == 52 {
                    assert(b[52] == "tar"@);
                }
                if k == 53 {
                    assert(b[53] == "gz"@);
                }
                if k == 54 {
                    assert(b[54] == "bz2"@);
                }
                if k == 55 {
                    assert(b[55] == "xz"@);
                }
                if k == 56 {
                    assert(b[56] == "iso"@);
                }
                if k == 57 {
                    assert(b[57] == "exe"@);
                }
                if k == 58 {
                    assert(b[58] == "msi"@);
                }
                if k == 59 {
                    assert(b[59] == "dll"@);
                }
                if k == 60 {
                    assert(b[60] == "so"@);
                }
                if k == 61 {
                    assert(b[61] == "dylib"@);
                }
                if k == 62 {
                    assert(b[62] == "class"@);
                }
                if k == 63 {
                    assert(b[63] == "jar"@);
                }
                if k == 64 {
                    assert(b[64] == "node"@);
                }
                if k == 65 {
                    assert(b[65] == "pyc"@);
                }
                if k == 66 {
                    assert(b[66] == "o"@);
                }
                if k == 67 {
                    assert(b[67] == "obj"@);
                }
                if k == 68 {
                    assert(b[68] == "lib"@);
                }
                if k == 69 {
                    assert(b[69] == "wasm"@);
                }
                if k == 70 {
                    assert(b[70] == "db"@);
                }
                if k == 71 {
                    assert(b[71] == "sqlite"@);
                }
                if k == 72 {
                    assert(b[72] == "sqlite3"@);
                }
                if k == 73 {
                    assert(b[73] == "dat"@);
                }
                if k == 74 {
                    assert(b[74] == "bin"@);
                }
                if k == 75 {
                    assert(b[75] == "pdb"@);
                }
                if k == 76 {
                    assert(b[76] == "drawio"@);
                }
            }
        }
    }
}

/// A regular file within the size limit whose extension (any letter case)
/// is one of `htm`, `css`, `scss`, `less`, `sass`, `js`, `mjs`, `cjs`, `ts`, `tsx`, `jsx`, `vue`, `svelte`, `rs`, `py`, `rb`, `go`, `java`, `sql`, `sh`, `bat`, `ps1`, `gitignore` opens as text.
#[verifier::rlimit(100)]
pub proof fn lemma_text_files_open_as_text_2(path: Seq<char>, len: u64)
    requires
        len <= MAX_TEXT_BYTES,
        extension(path) is Some,
        lowercase(extension(path)->0) == "htm"@ || lowercase(extension(path)->0) == "css"@ ||
            lowercase(extension(path)->0) == "scss"@ || lowercase(extension(path)->0) == "less"@ ||
            lowercase(extension(path)->0) == "sass"@ || lowercase(extension(path)->0) == "js"@ ||
            lowercase(extension(path)->0) == "mjs"@ || lowercase(extension(path)->0) == "cjs"@ ||
            lowercase(extension(path)->0) == "ts"@ || lowercase(extension(path)->0) == "tsx"@ ||
            lowercase(extension(path)->0) == "jsx"@ || lowercase(extension(path)->0) == "vue"@ ||
            lowercase(extension(path)->0) == "svelte"@ || lowercase(extension(path)->0) == "rs"@ ||
            lowercase(extension(path)->0) == "py"@ || lowercase(extension(path)->0) == "rb"@ ||
            lowercase(extension(path)->0) == "go"@ || lowercase(extension(path)->0) == "java"@ ||
            lowercase(extension(path)->0) == "sql"@ || lowercase(extension(path)->0) == "sh"@ ||
            lowercase(extension(path)->0) == "bat"@ || lowercase(extension(path)->0) == "ps1"@ ||
            lowercase(extension(path)->0) == "gitignore"@,
    ensures
        text_decision_spec(path, true, len) == TextDecision::Text,
{
    reveal_strlit("doc");
    reveal_strlit("docx");
    reveal_strlit("dot");
    reveal_strlit("dotx");
    reveal_strlit("docm");
    reveal_strlit("xls");
    reveal_strlit("xlsx");
    reveal_strlit("xlsm");
    reveal_strlit("xlsb");
    reveal_strlit("ppt");
    reveal_strlit("pptx");
    reveal_strlit("pps");
    reveal_strlit("ppsx");
    reveal_strlit("pdf");
    reveal_strlit("rtf");
    reveal_strlit("odt");
    reveal_strlit("ods");
    reveal_strlit("odp");
    reveal_strlit("wps");
    reveal_strlit("et");
    reveal_strlit("dps");
    reveal_strlit("png");
    reveal_strlit("jpg");
    reveal_strlit("jpeg");
    reveal_strlit("gif");
    reveal_strlit("bmp");
    reveal_strlit("ico");
    reveal_strlit("webp");
    reveal_strlit("tif");
    reveal_strlit("tiff");
    reveal_strlit("emf");
    reveal_strlit("wmf");
    reveal_strlit("heic");
    reveal_strlit("psd");
    reveal_strlit("ttf");
    reveal_strlit("otf");
    reveal_strlit("woff");
    reveal_strlit("woff2");
    reveal_strlit("eot");
    reveal_strlit("mp3");
    reveal_strlit("wav");
    reveal_strlit("ogg");
    reveal_strlit("flac");
    reveal_strlit("mp4");
    reveal_strlit("avi");
    reveal_strlit("mov");
    reveal_strlit("mkv");
    reveal_strlit("wmv");
    reveal_strlit("flv");
    reveal_strlit("zip");
    reveal_strlit("rar");
    reveal_strlit("7z");
    reveal_strlit("tar");
    reveal_strlit("gz");
    reveal_strlit("bz2");
    reveal_strlit("xz");
    reveal_strlit("iso");
    reveal_strlit("exe");
    reveal_strlit("msi");
    reveal_strlit("dll");
    reveal_strlit("so");
    reveal_strlit("dylib");
    reveal_strlit("class");
    reveal_strlit("jar");
    reveal_strlit("node");
    reveal_strlit("pyc");
    reveal_strlit("o");
    reveal_strlit("obj");
    reveal_strlit("lib");
    reveal_strlit("wasm");
    reveal_strlit("db");
    reveal_strlit("sqlite");
    reveal_strlit("sqlite3");
    reveal_strlit("dat");
    reveal_strlit("bin");
    reveal_strlit("pdb");
    reveal_strlit("drawio");
    reveal_strlit("htm");
    reveal_strlit("css");
    reveal_strlit("scss");
    reveal_strlit("less");
    reveal_strlit("sass");
    reveal_strlit("js");
    reveal_strlit("mjs");
    reveal_strlit("cjs");
    reveal_strlit("ts");
    reveal_strlit("tsx");
    reveal_strlit("jsx");
    reveal_strlit("vue");
    reveal_strlit("svelte");
    reveal_strlit("rs");
    reveal_strlit("py");
    reveal_strlit("rb");
    reveal_strlit("go");
    reveal_strlit("java");
    reveal_strlit("sql");
    reveal_strlit("sh");
    reveal_strlit("bat");
    reveal_strlit("ps1");
    reveal_strlit("gitignore");
    let x = lowercase(extension(path)->0);
    let l = text_exts();
    let b = binary_exts();
    if x == "htm"@ {
        assert(l[23] == x);
        assert(x[0] == 'h' && x[1] == 't' && x[2] == 'm');
        assert(!b.contains(x)) by {
            if b.contains(x) {
                let k = choose|k: int| 0 <= k < b.len() && b[k] == x;
                if k == 0 {
                    assert(b[0] == "doc"@);
                }
                if k == 1 {
                    assert(b[1] == "docx"@);
                }
                if k == 2 {
                    assert(b[2] == "dot"@);
                }
                if k == 3 {
                    assert(b[3] == "dotx"@);
                }
                if k == 4 {
                    assert(b[4] == "docm"@);
                }
                if k == 5 {
                    assert(b[5] == "xls"@);
                }
                if k == 6 {
                    assert(b[6] == "xlsx"@);
                }
                if k == 7 {
                    assert(b[7] == "xlsm"@);
                }
                if k == 8 {
                    assert(b[8] == "xlsb"@);
                }
                if k == 9 {
                    assert(b[9] == "ppt"@);
                }
                if k == 10 {
                    assert(b[10] == "pptx"@);
                }
                if k == 11 {
                    assert(b[11] == "pps"@);
                }
                if k == 12 {
                    assert(b[12] == "ppsx"@);
                }
                if k == 13 {
                    assert(b[13] == "pdf"@);
                }
                if k == 14 {
                    assert(b[14] == "rtf"@);
                }
                if k == 15 {
                    assert(b[15] == "odt"@);
                }
                if k == 16 {
                    assert(b[16] == "ods"@);
                }
                if k == 17 {
                    assert(b[17] == "odp"@);
                }
                if k == 18 {
                    assert(b[18] == "wps"@);
                }
                if k == 19 {
                    assert(b[19] == "et"@);
                }
                if k == 20 {
                    assert(b[20] == "dps"@);
                }
                if k == 21 {
                    assert(b[21] == "png"@);
                }
                if k == 22 {
                    assert(b[22] == "jpg"@);
                }
                if k == 23 {
                    assert(b[23] == "jpeg"@);
                }
                if k == 24 {
                    assert(b[24] == "gif"@);
                }
                if k == 25 {
                    assert(b[25] == "bmp"@);
                }
                if k == 26 {
                    assert(b[26] == "ico"@);
                }
                if k == 27 {
                    assert(b[27] == "webp"@);
                }
                if k == 28 {
                    assert(b[28] == "tif"@);
                }
                if k == 29 {
                    assert(b[29] == "tiff"@);
                }
                if k == 30 {
                    assert(b[30] == "emf"@);
                }
                if k == 31 {
                    assert(b[31] == "wmf"@);
                }
                if k == 32 {
                    assert(b[32] == "heic"@);
                }
                if k == 33 {
                    assert(b[33] == "psd"@);
                }
                if k == 34 {
                    assert(b[34] == "ttf"@);
                }
                if k == 35 {
                    assert(b[35] == "otf"@);
                }
                if k == 36 {
                    assert(b[36] == "woff"@);
                }
                if k == 37 {
                    assert(b[37] == "woff2"@);
                }
                if k == 38 {
                    assert(b[38] == "eot"@);
                }
                if k == 39 {
                    assert(b[39] == "mp3"@);
                }
                if k == 40 {
                    assert(b[40] == "wav"@);
                }
                if k == 41 {
                    assert(b[41] == "ogg"@);
                }
                if k == 42 {
                    assert(b[42] == "flac"@);
                }
                if k == 43 {
                    assert(b[43] == "mp4"@);
                }
                if k == 44 {
                    assert(b[44] == "avi"@);
                }
                if k == 45 {
                    assert(b[45] == "mov"@);
                }
                if k == 46 {
                    assert(b[46] == "mkv"@);
                }
                if k == 47 {
                    assert(b[47] == "wmv"@);
                }
                if k == 48 {
                    assert(b[48] == "flv"@);
                }
                if k == 49 {
                    assert(b[49] == "zip"@);
                }
                if k == 50 {
                    assert(b[50] == "rar"@);
                }
                if k == 51 {
                    assert(b[51] == "7z"@);
                }
                if k == 52 {
                    assert(b[52] == "tar"@);
                }
                if k == 53 {
                    assert(b[53] == "gz"@);
                }
                if k == 54 {
                    assert(b[54] == "bz2"@);
                }
                if k == 55 {
                    assert(b[55] == "xz"@);
                }
                if k == 56 {
                    assert(b[56] == "iso"@);
                }
                if k == 57 {
                    assert(b[57] == "exe"@);
                }
                if k == 58 {
                    assert(b[58] == "msi"@);
                }
                if k == 59 {
                    assert(b[59] == "dll"@);
                }
                if k == 60 {
                    assert(b[60] == "so"@);
                }
                if k == 61 {
                    assert(b[61] == "dylib"@);
                }
                if k == 62 {
                    assert(b[62] == "class"@);
                }
                if k == 63 {
                    assert(b[63] == "jar"@);
                }
                if k == 64 {
                    assert(b[64] == "node"@);
                }
                if k == 65 {
                    assert(b[65] == "pyc"@);
                }
                if k == 66 {
                    assert(b[66] == "o"@);
                }
                if k == 67 {
                    assert(b[67] == "obj"@);
                }
                if k == 68 {
                    assert(b[68] == "lib"@);
                }
                if k == 69 {
                    assert(b[69] == "wasm"@);
                }
                if k == 70 {
                    assert(b[70] == "db"@);
                }
                if k == 71 {
                    assert(b[71] == "sqlite"@);
                }
                if k == 72 {
                    assert(b[72] == "sqlite3"@);
                }
                if k == 73 {
                    assert(b[73] == "dat"@);
                }
                if k == 74 {
                    assert(b[74] == "bin"@);
                }
                if k == 75 {
                    assert(b[75] == "pdb"@);
                }
                if k == 76 {
                    assert(b[76] == "drawio"@);
                }
            }
        }
    } else if x == "css"@ {
        assert(l[24] == x);
        assert(x[0] == 'c' && x[1] == 's' && x[2] == 's');
        assert(!b.contains(x)) by {
            if b.contains(x) {
                let k = choose|k: int| 0 <= k < b.len() && b[k] == x;
                if k == 0 {
                    assert(b[0] == "doc"@);
                }
                if k == 1 {
                    assert(b[1] == "docx"@);
                }
                if k == 2 {
                    assert(b[2] == "dot"@);
                }
                if k == 3 {
                    assert(b[3] == "dotx"@);
                }
                if k == 4 {
                    assert(b[4] == "docm"@);
                }
                if k == 5 {
                    assert(b[5] == "xls"@);
                }
                if k == 6 {
                    assert(b[6] == "xlsx"@);
                }
                if k == 7 {
                    assert(b[7] == "xlsm"@);
                }
                if k == 8 {
                    assert(b[8] == "xlsb"@);
                }
                if k == 9 {
                    assert(b[9] == "ppt"@);
                }
                if k == 10 {
                    assert(b[10] == "pptx"@);
                }
                if k == 11 {
                    assert(b[11] == "pps"@);
                }
                if k == 12 {
                    assert(b[12] == "ppsx"@);
                }
                if k == 13 {
                    assert(b[13] == "pdf"@);
                }
                if k == 14 {
                    assert(b[14] == "rtf"@);
                }
                if k == 15 {
                    assert(b[15] == "odt"@);
                }
                if k == 16 {
                    assert(b[16] == "ods"@);
                }
                if k == 17 {
                    assert(b[17] == "odp"@);
                }
                if k == 18 {
                    assert(b[18] == "wps"@);
                }
                if k == 19 {
                    assert(b[19] == "et"@);
                }
                if k == 20 {
                    assert(b[20] == "dps"@);
                }
                if k == 21 {
                    assert(b[21] == "png"@);
                }
                if k == 22 {
                    assert(b[22] == "jpg"@);
                }
                if k == 23 {
                    assert(b[23] == "jpeg"@);
                }
                if k == 24 {
                    assert(b[24] == "gif"@);
                }
                if k == 25 {
                    assert(b[25] == "bmp"@);
                }
                if k == 26 {
                    assert(b[26] == "ico"@);
                }
                if k == 27 {
                    assert(b[27] == "webp"@);
                }
                if k == 28 {
                    assert(b[28] == "tif"@);
                }
                if k == 29 {
                    assert(b[29] == "tiff"@);
                }
                if k == 30 {
                    assert(b[30] == "emf"@);
                }
                if k == 31 {
                    assert(b[31] == "wmf"@);
                }
                if k == 32 {
                    assert(b[32] == "heic"@);
                }
                if k == 33 {
                    assert(b[33] == "psd"@);
                }
                if k == 34 {
                    assert(b[34] == "ttf"@);
                }
                if k == 35 {
                    assert(b[35] == "otf"@);
                }
                if k == 36 {
                    assert(b[36] == "woff"@);
                }
                if k == 37 {
                    assert(b[37] == "woff2"@);
                }
                if k == 38 {
                    assert(b[38] == "eot"@);
                }
                if k == 39 {
                    assert(b[39] == "mp3"@);
                }
                if k == 40 {
                    assert(b[40] == "wav"@);
                }
                if k == 41 {
                    assert(b[41] == "ogg"@);
                }
                if k == 42 {
                    assert(b[42] == "flac"@);
                }
                if k == 43 {
                    assert(b[43] == "mp4"@);
                }
                if k == 44 {
                    assert(b[44] == "avi"@);
                }
                if k == 45 {
                    assert(b[45] == "mov"@);
                }
                if k == 46 {
                    assert(b[46] == "mkv"@);
                }
                if k == 47 {
                    assert(b[47] == "wmv"@);
                }
                if k == 48 {
                    assert(b[48] == "flv"@);
                }
                if k == 49 {
                    assert(b[49] == "zip"@);
                }
                if k == 50 {
                    assert(b[50] == "rar"@);
                }
                if k == 51 {
                    assert(b[51] == "7z"@);
                }
                if k == 52 {
                    assert(b[52] == "tar"@);
                }
                if k == 53 {
                    assert(b[53] == "gz"@);
                }
                if k == 54 {
                    assert(b[54] == "bz2"@);
                }
                if k == 55 {
                    assert(b[55] == "xz"@);
                }
                if k == 56 {
                    assert(b[56] == "iso"@);
                }
                if k == 57 {
                    assert(b[57] == "exe"@);
                }
                if k == 58 {
                    assert(b[58] == "msi"@);
                }
                if k == 59 {
                    assert(b[59] == "dll"@);
                }
                if k == 60 {
                    assert(b[60] == "so"@);
                }
                if k == 61 {
                    assert(b[61] == "dylib"@);
                }
                if k == 62 {
                    assert(b[62] == "class"@);
                }
                if k == 63 {
                    assert(b[63] == "jar"@);
                }
                if k == 64 {
                    assert(b[64] == "node"@);
                }
                if k == 65 {
                    assert(b[65] == "pyc"@);
                }
                if k == 66 {
                    assert(b[66] == "o"@);
                }
                if k == 67 {
                    assert(b[67] == "obj"@);
                }
                if k == 68 {
                    assert(b[68] == "lib"@);
                }
                if k == 69 {
                    assert(b[69] == "wasm"@);
                }
                if k == 70 {
                    assert(b[70] == "db"@);
                }
                if k == 71 {
                    assert(b[71] == "sqlite"@);
                }
                if k == 72 {
                    assert(b[72] == "sqlite3"@);
                }
                if k == 73 {
                    assert(b[73] == "dat"@);
                }
                if k == 74 {
                    assert(b[74] == "bin"@);
                }
                if k == 75 {
                    assert(b[75] == "pdb"@);
                }
                if k == 76 {
                    assert(b[76] == "drawio"@);
                }
            }
        }
    } else if x == "scss"@ {
        assert(l[25] == x);
        assert(x[0] == 's' && x[1] == 'c' && x[2] == 's' && x[3] == 's');
        assert(!b.contains(x)) by {
            if b.contains(x) {
                let k = choose|k: int| 0 <= k < b.len() && b[k] == x;
                if k == 0 {
                    assert(b[0] == "doc"@);
                }
                if k == 1 {
                    assert(b[1] == "docx"@);
                }
                if k == 2 {
                    assert(b[2] == "dot"@);
                }
                if k == 3 {
                    assert(b[3] == "dotx"@);
                }
                if k == 4 {
                    assert(b[4] == "docm"@);
                }
                if k == 5 {
                    assert(b[5] == "xls"@);
                }
                if k == 6 {
                    assert(b[6] == "xlsx"@);
                }
                if k == 7 {
                    assert(b[7] == "xlsm"@);
                }
                if k == 8 {
                    assert(b[8] == "xlsb"@);
                }
                if k == 9 {
                    assert(b[9] == "ppt"@);
                }
                if k == 10 {
                    assert(b[10] == "pptx"@);
                }
                if k == 11 {
                    assert(b[11] == "pps"@);
                }
                if k == 12 {
                    assert(b[12] == "ppsx"@);
                }
                if k == 13 {
                    assert(b[13] == "pdf"@);
                }
                if k == 14 {
                    assert(b[14] == "rtf"@);
                }
                if k == 15 {
                    assert(b[15] == "odt"@);
                }
                if k == 16 {
                    assert(b[16] == "ods"@);
                }
                if k == 17 {
                    assert(b[17] == "odp"@);
                }
                if k == 18 {
                    assert(b[18] == "wps"@);
                }
                if k == 19 {
                    assert(b[19] == "et"@);
                }
                if k == 20 {
                    assert(b[20] == "dps"@);
                }
                if k == 21 {
                    assert(b[21] == "png"@);
                }
                if k == 22 {
                    assert(b[22] == "jpg"@);
                }
                if k == 23 {
                    assert(b[23] == "jpeg"@);
                }
                if k == 24 {
                    assert(b[24] == "gif"@);
                }
                if k == 25 {
                    assert(b[25] == "bmp"@);
                }
                if k == 26 {
                    assert(b[26] == "ico"@);
                }
                if k == 27 {
                    assert(b[27] == "webp"@);
                }
                if k == 28 {
                    assert(b[28] == "tif"@);
                }
                if k == 29 {
                    assert(b[29] == "tiff"@);
                }
                if k == 30 {
                    assert(b[30] == "emf"@);
                }
                if k == 31 {
                    assert(b[31] == "wmf"@);
                }
                if k == 32 {
                    assert(b[32] == "heic"@);
                }
                if k == 33 {
                    assert(b[33] == "psd"@);
                }
                if k == 34 {
                    assert(b[34] == "ttf"@);
                }
                if k == 35 {
                    assert(b[35] == "otf"@);
                }
                if k == 36 {
                    assert(b[36] == "woff"@);
                }
                if k == 37 {
                    assert(b[37] == "woff2"@);
                }
                if k == 38 {
                    assert(b[38] == "eot"@);
                }
                if k == 39 {
                    assert(b[39] == "mp3"@);
                }
                if k == 40 {
                    assert(b[40] == "wav"@);
                }
                if k == 41 {
                    assert(b[41] == "ogg"@);
                }
                if k == 42 {
                    assert(b[42] == "flac"@);
                }
                if k == 43 {
                    assert(b[43] == "mp4"@);
                }
                if k == 44 {
                    assert(b[44] == "avi"@);
                }
                if k == 45 {
                    assert(b[45] == "mov"@);
                }
                if k == 46 {
                    assert(b[46] == "mkv"@);
                }
                if k == 47 {
                    assert(b[47] == "wmv"@);
                }
                if k == 48 {
                    assert(b[48] == "flv"@);
                }
                if k == 49 {
                    assert(b[49] == "zip"@);
                }
                if k == 50 {
                    assert(b[50] == "rar"@);
                }
                if k == 51 {
                    assert(b[51] == "7z"@);
                }
                if k == 52 {
                    assert(b[52] == "tar"@);
                }
                if k == 53 {
                    assert(b[53] == "gz"@);
                }
                if k == 54 {
                    assert(b[54] == "bz2"@);
                }
                if k == 55 {
                    assert(b[55] == "xz"@);
                }
                if k == 56 {
                    assert(b[56] == "iso"@);
                }
                if k == 57 {
                    assert(b[57] == "exe"@);
                }
                if k == 58 {
                    assert(b[58] == "msi"@);
                }
                if k == 59 {
                    assert(b[59] == "dll"@);
                }
                if k == 60 {
                    assert(b[60] == "so"@);
                }
                if k == 61 {
                    assert(b[61] == "dylib"@);
                }
                if k == 62 {
                    assert(b[62] == "class"@);
                }
                if k == 63 {
                    assert(b[63] == "jar"@);
                }
                if k == 64 {
                    assert(b[64] == "node"@);
                }
                if k == 65 {
                    assert(b[65] == "pyc"@);
                }
                if k == 66 {
                    assert(b[66] == "o"@);
                }
                if k == 67 {
                    assert(b[67] == "obj"@);
                }
                if k == 68 {
                    assert(b[68] == "lib"@);
                }
                if k == 69 {
                    assert(b[69] == "wasm"@);
                }
                if k == 70 {
                    assert(b[70] == "db"@);
                }
                if k == 71 {
                    assert(b[71] == "sqlite"@);
                }
                if k == 72 {
                    assert(b[72] == "sqlite3"@);
                }
                if k == 73 {
                    assert(b[73] == "dat"@);
                }
                if k == 74 {
                    assert(b[74] == "bin"@);
                }
                if k == 75 {
                    assert(b[75] == "pdb"@);
                }
                if k == 76 {
                    assert(b[76] == "drawio"@);
                }
            }
        }
    } else if x == "less"@ {
        assert(l[26] == x);
        assert(x[0] == 'l' && x[1] == 'e' && x[2] == 's' && x[3] == 's');
        assert(!b.contains(x)) by {
            if b.contains(x) {
                let k = choose|k: int| 0 <= k < b.len() && b[k] == x;
                if k == 0 {
                    assert(b[0] == "doc"@);
                }
                if k == 1 {
                    assert(b[1] == "docx"@);
                }
                if k == 2 {
                    assert(b[2] == "dot"@);
                }
                if k == 3 {
                    assert(b[3] == "dotx"@);
                }
                if k == 4 {
                    assert(b[4] == "docm"@);
                }
                if k == 5 {
                    assert(b[5] == "xls"@);
                }
                if k == 6 {
                    assert(b[6] == "xlsx"@);
                }
                if k == 7 {
                    assert(b[7] == "xlsm"@);
                }
                if k == 8 {
                    assert(b[8] == "xlsb"@);
                }
                if k == 9 {
                    assert(b[9] == "ppt"@);
                }
                if k == 10 {
                    assert(b[10] == "pptx"@);
                }
                if k == 11 {
                    assert(b[11] == "pps"@);
                }
                if k == 12 {
                    assert(b[12] == "ppsx"@);
                }
                if k == 13 {
                    assert(b[13] == "pdf"@);
                }
                if k == 14 {
                    assert(b[14] == "rtf"@);
                }
                if k == 15 {
                    assert(b[15] == "odt"@);
                }
                if k == 16 {
                    assert(b[16] == "ods"@);
                }
                if k == 17 {
                    assert(b[17] == "odp"@);
                }
                if k == 18 {
                    assert(b[18] == "wps"@);
                }
                if k == 19 {
                    assert(b[19] == "et"@);
                }
                if k == 20 {
                    assert(b[20] == "dps"@);
                }
                if k == 21 {
                    assert(b[21] == "png"@);
                }
                if k == 22 {
                    assert(b[22] == "jpg"@);
                }
                if k == 23 {
                    assert(b[23] == "jpeg"@);
                }
                if k == 24 {
                    assert(b[24] == "gif"@);
                }
                if k == 25 {
                    assert(b[25] == "bmp"@);
                }
                if k == 26 {
                    assert(b[26] == "ico"@);
                }
                if k == 27 {
                    assert(b[27] == "webp"@);
                }
                if k == 28 {
                    assert(b[28] == "tif"@);
                }
                if k == 29 {
                    assert(b[29] == "tiff"@);
                }
                if k == 30 {
                    assert(b[30] == "emf"@);
                }
                if k == 31 {
                    assert(b[31] == "wmf"@);
                }
                if k == 32 {
                    assert(b[32] == "heic"@);
                }
                if k == 33 {
                    assert(b[33] == "psd"@);
                }
                if k == 34 {
                    assert(b[34] == "ttf"@);
                }
                if k == 35 {
                    assert(b[35] == "otf"@);
                }
                if k == 36 {
                    assert(b[36] == "woff"@);
                }
                if k == 37 {
                    assert(b[37] == "woff2"@);
                }
                if k == 38 {
                    assert(b[38] == "eot"@);
                }
                if k == 39 {
                    assert(b[39] == "mp3"@);
                }
                if k == 40 {
                    assert(b[40] == "wav"@);
                }
                if k == 41 {
                    assert(b[41] == "ogg"@);
                }
                if k == 42 {
                    assert(b[42] == "flac"@);
                }
                if k == 43 {
                    assert(b[43] == "mp4"@);
                }
                if k == 44 {
                    assert(b[44] == "avi"@);
                }
                if k == 45 {
                    assert(b[45] == "mov"@);
                }
                if k == 46 {
                    assert(b[46] == "mkv"@);
                }
                if k == 47 {
                    assert(b[47] == "wmv"@);
                }
                if k == 48 {
                    assert(b[48] == "flv"@);
                }
                if k == 49 {
                    assert(b[49] == "zip"@);
                }
                if k == 50 {
                    assert(b[50] == "rar"@);
                }
                if k == 51 {
                    assert(b[51] == "7z"@);
                }
                if k == 52 {
                    assert(b[52] == "tar"@);
                }
                if k == 53 {
                    assert(b[53] == "gz"@);
                }
                if k == 54 {
                    assert(b[54] == "bz2"@);
                }
                if k == 55 {
                    assert(b[55] == "xz"@);
                }
                if k == 56 {
                    assert(b[56] == "iso"@);
                }
                if k == 57 {
                    assert(b[57] == "exe"@);
                }
                if k == 58 {
                    assert(b[58] == "msi"@);
                }
                if k == 59 {
                    assert(b[59] == "dll"@);
                }
                if k == 60 {
                    assert(b[60] == "so"@);
                }
                if k == 61 {
                    assert(b[61] == "dylib"@);
                }
                if k == 62 {
                    assert(b[62] == "class"@);
                }
                if k == 63 {
                    assert(b[63] == "jar"@);
                }
                if k == 64 {
                    assert(b[64] == "node"@);
                }
                if k == 65 {
                    assert(b[65] == "pyc"@);
                }
                if k == 66 {
                    assert(b[66] == "o"@);
                }
                if k == 67 {
                    assert(b[67] == "obj"@);
                }
                if k == 68 {
                    assert(b[68] == "lib"@);
                }
                if k == 69 {
                    assert(b[69] == "wasm"@);
                }
                if k == 70 {
                    assert(b[70] == "db"@);
                }
                if k == 71 {
                    assert(b[71] == "sqlite"@);
                }
                if k == 72 {
                    assert(b[72] == "sqlite3"@);
                }
                if k == 73 {
                    assert(b[73] == "dat"@);
                }
                if k == 74 {
                    assert(b[74] == "bin"@);
                }
                if k == 75 {
                    assert(b[75] == "pdb"@);
                }
                if k == 76 {
                    assert(b[76] == "drawio"@);
                }
            }
        }
    } else if x == "sass"@ {
        assert(l[27] == x);
        assert(x[0] == 's' && x[1] == 'a' && x[2] == 's' && x[3] == 's');
        assert(!b.contains(x)) by {
            if b.contains(x) {
                let k = choose|k: int| 0 <= k < b.len() && b[k] == x;
                if k == 0 {
                    assert(b[0] == "doc"@);
                }
                if k == 1 {
                    assert(b[1] == "docx"@);
                }
                if k == 2 {
                    assert(b[2] == "dot"@);
                }
                if k == 3 {
                    assert(b[3] == "dotx"@);
                }
                if k == 4 {
                    assert(b[4] == "docm"@);
                }
                if k == 5 {
                    assert(b[5] == "xls"@);
                }
                if k == 6 {
                    assert(b[6] == "xlsx"@);
                }
                if k == 7 {
                    assert(b[7] == "xlsm"@);
                }
                if k == 8 {
                    assert(b[8] == "xlsb"@);
                }
                if k == 9 {
                    assert(b[9] == "ppt"@);
                }
                if k == 10 {
                    assert(b[10] == "pptx"@);
                }
                if k == 11 {
                    assert(b[11] == "pps"@);
                }
                if k == 12 {
                    assert(b[12] == "ppsx"@);
                }
                if k == 13 {
                    assert(b[13] == "pdf"@);
                }
                if k == 14 {
                    assert(b[14] == "rtf"@);
                }
                if k == 15 {
                    assert(b[15] == "odt"@);
                }
                if k == 16 {
                    assert(b[16] == "ods"@);
                }
                if k == 17 {
                    assert(b[17] == "odp"@);
                }
                if k == 18 {
                    assert(b[18] == "wps"@);
                }
                if k == 19 {
                    assert(b[19] == "et"@);
                }
                if k == 20 {
                    assert(b[20] == "dps"@);
                }
                if k == 21 {
                    assert(b[21] == "png"@);
                }
                if k == 22 {
                    assert(b[22] == "jpg"@);
                }
                if k == 23 {
                    assert(b[23] == "jpeg"@);
                }
                if k == 24 {
                    assert(b[24] == "gif"@);
                }
                if k == 25 {
                    assert(b[25] == "bmp"@);
                }
                if k == 26 {
                    assert(b[26] == "ico"@);
                }
                if k == 27 {
                    assert(b[27] == "webp"@);
                }
                if k == 28 {
                    assert(b[28] == "tif"@);
                }
                if k == 29 {
                    assert(b[29] == "tiff"@);
                }
                if k == 30 {
                    assert(b[30] == "emf"@);
                }
                if k == 31 {
                    assert(b[31] == "wmf"@);
                }
                if k == 32 {
                    assert(b[32] == "heic"@);
                }
                if k == 33 {
                    assert(b[33] == "psd"@);
                }
                if k == 34 {
                    assert(b[34] == "ttf"@);
                }
                if k == 35 {
                    assert(b[35] == "otf"@);
                }
                if k == 36 {
                    assert(b[36] == "woff"@);
                }
                if k == 37 {
                    assert(b[37] == "woff2"@);
                }
                if k == 38 {
                    assert(b[38] == "eot"@);
                }
                if k == 39 {
                    assert(b[39] == "mp3"@);
                }
                if k == 40 {
                    assert(b[40] == "wav"@);
                }
                if k == 41 {
                    assert(b[41] == "ogg"@);
                }
                if k == 42 {
                    assert(b[42] == "flac"@);
                }
                if k == 43 {
                    assert(b[43] == "mp4"@);
                }
                if k == 44 {
                    assert(b[44] == "avi"@);
                }
                if k == 45 {
                    assert(b[45] == "mov"@);
                }
                if k == 46 {
                    assert(b[46] == "mkv"@);
                }
                if k == 47 {
                    assert(b[47] == "wmv"@);
                }
                if k == 48 {
                    assert(b[48] == "flv"@);
                }
                if k == 49 {
                    assert(b[49] == "zip"@);
                }
                if k == 50 {
                    assert(b[50] == "rar"@);
                }
                if k == 51 {
                    assert(b[51] == "7z"@);
                }
                if k == 52 {
                    assert(b[52] == "tar"@);
                }
                if k == 53 {
                    assert(b[53] == "gz"@);
                }
                if k == 54 {
                    assert(b[54] == "bz2"@);
                }
                if k == 55 {
                    assert(b[55] == "xz"@);
                }
                if k == 56 {
                    assert(b[56] == "iso"@);
                }
                if k == 57 {
                    assert(b[57] == "exe"@);
                }
                if k == 58 {
                    assert(b[58] == "msi"@);
                }
                if k == 59 {
                    assert(b[59] == "dll"@);
                }
                if k == 60 {
                    assert(b[60] == "so"@);
                }
                if k == 61 {
                    assert(b[61] == "dylib"@);
                }
                if k == 62 {
                    assert(b[62] == "class"@);
                }
                if k == 63 {
                    assert(b[63] == "jar"@);
                }
                if k == 64 {
                    assert(b[64] == "node"@);
                }
                if k == 65 {
                    assert(b[65] == "pyc"@);
                }
                if k == 66 {
                    assert(b[66] == "o"@);
                }
                if k == 67 {
                    assert(b[67] == "obj"@);
                }
                if k == 68 {
                    assert(b[68] == "lib"@);
                }
                if k == 69 {
                    assert(b[69] == "wasm"@);
                }
                if k == 70 {
                    assert(b[70] == "db"@);
                }
                if k == 71 {
                    assert(b[71] == "sqlite"@);
                }
                if k == 72 {
                    assert(b[72] == "sqlite3"@);
                }
                if k == 73 {
                    assert(b[73] == "dat"@);
                }
                if k == 74 {
                    assert(b[74] == "bin"@);
                }
                if k == 75 {
                    assert(b[75] == "pdb"@);
                }
                if k == 76 {
                    assert(b[76] == "drawio"@);
                }
            }
        }
    } else if x == "js"@ {
        assert(l[28] == x);
        assert(x[0] == 'j' && x[1] == 's');
        assert(!b.contains(x)) by {
            if b.contains(x) {
                let k = choose|k: int| 0 <= k < b.len() && b[k] == x;
                if k == 0 {
                    assert(b[0] == "doc"@);
                }
                if k == 1 {
                    assert(b[1] == "docx"@);
                }
                if k == 2 {
                    assert(b[2] == "dot"@);
                }
                if k == 3 {
                    assert(b[3] == "dotx"@);
                }
                if k == 4 {
                    assert(b[4] == "docm"@);
                }
                if k == 5 {
                    assert(b[5] == "xls"@);
                }
                if k == 6 {
                    assert(b[6] == "xlsx"@);
                }
                if k == 7 {
                    assert(b[7] == "xlsm"@);
                }
                if k == 8 {
                    assert(b[8] == "xlsb"@);
                }
                if k == 9 {
                    assert(b[9] == "ppt"@);
                }
                if k == 10 {
                    assert(b[10] == "pptx"@);
                }
                if k == 11 {
                    assert(b[11] == "pps"@);
                }
                if k == 12 {
                    assert(b[12] == "ppsx"@);
                }
                if k == 13 {
                    assert(b[13] == "pdf"@);
                }
                if k == 14 {
                    assert(b[14] == "rtf"@);
                }
                if k == 15 {
                    assert(b[15] == "odt"@);
                }
                if k == 16 {
                    assert(b[16] == "ods"@);
                }
                if k == 17 {
                    assert(b[17] == "odp"@);
                }
                if k == 18 {
                    assert(b[18] == "wps"@);
                }
                if k == 19 {
                    assert(b[19] == "et"@);
                }
                if k == 20 {
                    assert(b[20] == "dps"@);
                }
                if k == 21 {
                    assert(b[21] == "png"@);
                }
                if k == 22 {
                    assert(b[22] == "jpg"@);
                }
                if k == 23 {
                    assert(b[23] == "jpeg"@);
                }
                if k == 24 {
                    assert(b[24] == "gif"@);
                }
                if k == 25 {
                    assert(b[25] == "bmp"@);
                }
                if k == 26 {
                    assert(b[26] == "ico"@);
                }
                if k == 27 {
                    assert(b[27] == "webp"@);
                }
                if k == 28 {
                    assert(b[28] == "tif"@);
                }
                if k == 29 {
                    assert(b[29] == "tiff"@);
                }
                if k == 30 {
                    assert(b[30] == "emf"@);
                }
                if k == 31 {
                    assert(b[31] == "wmf"@);
                }
                if k == 32 {
                    assert(b[32] == "heic"@);
                }
                if k == 33 {
                    assert(b[33] == "psd"@);
                }
                if k == 34 {
                    assert(b[34] == "ttf"@);
                }
                if k == 35 {
                    assert(b[35] == "otf"@);
                }
                if k == 36 {
                    assert(b[36] == "woff"@);
                }
                if k == 37 {
                    assert(b[37] == "woff2"@);
                }
                if k == 38 {
                    assert(b[38] == "eot"@);
                }
                if k == 39 {
                    assert(b[39] == "mp3"@);
                }
                if k == 40 {
                    assert(b[40] == "wav"@);
                }
                if k == 41 {
                    assert(b[41] == "ogg"@);
                }
                if k == 42 {
                    assert(b[42] == "flac"@);
                }
                if k == 43 {
                    assert(b[43] == "mp4"@);
                }
                if k == 44 {
                    assert(b[44] == "avi"@);
                }
                if k == 45 {
                    assert(b[45] == "mov"@);
                }
                if k == 46 {
                    assert(b[46] == "mkv"@);
                }
                if k == 47 {
                    assert(b[47] == "wmv"@);
                }
                if k == 48 {
                    assert(b[48] == "flv"@);
                }
                if k == 49 {
                    assert(b[49] == "zip"@);
                }
                if k == 50 {
                    assert(b[50] == "rar"@);
                }
                if k == 51 {
                    assert(b[51] == "7z"@);
                }
                if k == 52 {
                    assert(b[52] == "tar"@);
                }
                if k == 53 {
                    assert(b[53] == "gz"@);
                }
                if k == 54 {
                    assert(b[54] == "bz2"@);
                }
                if k == 55 {
                    assert(b[55] == "xz"@);
                }
                if k == 56 {
                    assert(b[56] == "iso"@);
                }
                if k == 57 {
                    assert(b[57] == "exe"@);
                }
                if k == 58 {
                    assert(b[58] == "msi"@);
                }
                if k == 59 {
                    assert(b[59] == "dll"@);
                }
                if k == 60 {
                    assert(b[60] == "so"@);
                }
                if k == 61 {
                    assert(b[61] == "dylib"@);
                }
                if k == 62 {
                    assert(b[62] == "class"@);
                }
                if k == 63 {
                    assert(b[63] == "jar"@);
                }
                if k == 64 {
                    assert(b[64] == "node"@);
                }
                if k == 65 {
                    assert(b[65] == "pyc"@);
                }
                if k == 66 {
                    assert(b[66] == "o"@);
                }
                if k == 67 {
                    assert(b[67] == "obj"@);
                }
                if k == 68 {
                    assert(b[68] == "lib"@);
                }
                if k == 69 {
                    assert(b[69] == "wasm"@);
                }
                if k == 70 {
                    assert(b[70] == "db"@);
                }
                if k == 71 {
                    assert(b[71] == "sqlite"@);
                }
                if k == 72 {
                    assert(b[72] == "sqlite3"@);
                }
                if k == 73 {
                    assert(b[73] == "dat"@);
                }
                if k == 74 {
                    assert(b[74] == "bin"@);
                }
                if k == 75 {
                    assert(b[75] == "pdb"@);
                }
                if k == 76 {
                    assert(b[76] == "drawio"@);
                }
            }
        }
    } else if x == "mjs"@ {
        assert(l[29] == x);
        assert(x[0] == 'm' && x[1] == 'j' && x[2] == 's');
        assert(!b.contains(x)) by {
            if b.contains(x) {
                let k = choose|k: int| 0 <= k < b.len() && b[k] == x;
                if k == 0 {
                    assert(b[0] == "doc"@);
                }
                if k == 1 {
                    assert(b[1] == "docx"@);
                }
                if k == 2 {
                    assert(b[2] == "dot"@);
                }
                if k == 3 {
                    assert(b[3] == "dotx"@);
                }
                if k == 4 {
                    assert(b[4] == "docm"@);
                }
                if k == 5 {
                    assert(b[5] == "xls"@);
                }
                if k == 6 {
                    assert(b[6] == "xlsx"@);
                }
                if k == 7 {
                    assert(b[7] == "xlsm"@);
                }
                if k == 8 {
                    assert(b[8] == "xlsb"@);
                }
                if k == 9 {
                    assert(b[9] == "ppt"@);
                }
                if k == 10 {
                    assert(b[10] == "pptx"@);
                }
                if k == 11 {
                    assert(b[11] == "pps"@);
                }
                if k == 12 {
                    assert(b[12] == "ppsx"@);
                }
                if k == 13 {
                    assert(b[13] == "pdf"@);
                }
                if k == 14 {
                    assert(b[14] == "rtf"@);
                }
                if k == 15 {
                    assert(b[15] == "odt"@);
                }
                if k == 16 {
                    assert(b[16] == "ods"@);
                }
                if k == 17 {
                    assert(b[17] == "odp"@);
                }
                if k == 18 {
                    assert(b[18] == "wps"@);
                }
                if k == 19 {
                    assert(b[19] == "et"@);
                }
                if k == 20 {
                    assert(b[20] == "dps"@);
                }
                if k == 21 {
                    assert(b[21] == "png"@);
                }
                if k == 22 {
                    assert(b[22] == "jpg"@);
                }
                if k == 23 {
                    assert(b[23] == "jpeg"@);
                }
                if k == 24 {
                    assert(b[24] == "gif"@);
                }
                if k == 25 {
                    assert(b[25] == "bmp"@);
                }
                if k == 26 {
                    assert(b[26] == "ico"@);
                }
                if k == 27 {
                    assert(b[27] == "webp"@);
                }
                if k == 28 {
                    assert(b[28] == "tif"@);
                }
                if k == 29 {
                    assert(b[29] == "tiff"@);
                }
                if k == 30 {
                    assert(b[30] == "emf"@);
                }
                if k == 31 {
                    assert(b[31] == "wmf"@);
                }
                if k == 32 {
                    assert(b[32] == "heic"@);
                }
                if k == 33 {
                    assert(b[33] == "psd"@);
                }
                if k == 34 {
                    assert(b[34] == "ttf"@);
                }
                if k == 35 {
                    assert(b[35] == "otf"@);
                }
                if k == 36 {
                    assert(b[36] == "woff"@);
                }
                if k == 37 {
                    assert(b[37] == "woff2"@);
                }
                if k == 38 {
                    assert(b[38] == "eot"@);
                }
                if k == 39 {
                    assert(b[39] == "mp3"@);
                }
                if k == 40 {
                    assert(b[40] == "wav"@);
                }
                if k == 41 {
                    assert(b[41] == "ogg"@);
                }
                if k == 42 {
                    assert(b[42] == "flac"@);
                }
                if k == 43 {
                    assert(b[43] == "mp4"@);
                }
                if k == 44 {
                    assert(b[44] == "avi"@);
                }
                if k == 45 {
                    assert(b[45] == "mov"@);
                }
                if k == 46 {
                    assert(b[46] == "mkv"@);
                }
                if k == 47 {
                    assert(b[47] == "wmv"@);
                }
                if k == 48 {
                    assert(b[48] == "flv"@);
                }
                if k == 49 {
                    assert(b[49] == "zip"@);
                }
                if k == 50 {
                    assert(b[50] == "rar"@);
                }
                if k == 51 {
                    assert(b[51] == "7z"@);
                }
                if k == 52 {
                    assert(b[52] == "tar"@);
                }
                if k == 53 {
                    assert(b[53] == "gz"@);
                }
                if k == 54 {
                    assert(b[54] == "bz2"@);
                }
                if k == 55 {
                    assert(b[55] == "xz"@);
                }
                if k == 56 {
                    assert(b[56] == "iso"@);
                }
                if k == 57 {
                    assert(b[57] == "exe"@);
                }
                if k == 58 {
                    assert(b[58] == "msi"@);
                }
                if k == 59 {
                    assert(b[59] == "dll"@);
                }
                if k == 60 {
                    assert(b[60] == "so"@);
                }
                if k == 61 {
                    assert(b[61] == "dylib"@);
                }
                if k == 62 {
                    assert(b[62] == "class"@);
                }
                if k == 63 {
                    assert(b[63] == "jar"@);
                }
                if k == 64 {
                    assert(b[64] == "node"@);
                }
                if k == 65 {
                    assert(b[65] == "pyc"@);
                }
                if k == 66 {
                    assert(b[66] == "o"@);
                }
                if k == 67 {
                    assert(b[67] == "obj"@);
                }
                if k == 68 {
                    assert(b[68] == "lib"@);
                }
                if k == 69 {
                    assert(b[69] == "wasm"@);
                }
                if k == 70 {
                    assert(b[70] == "db"@);
                }
                if k == 71 {
                    assert(b[71] == "sqlite"@);
                }
                if k == 72 {
                    assert(b[72] == "sqlite3"@);
                }
                if k == 73 {
                    assert(b[73] == "dat"@);
                }
                if k == 74 {
                    assert(b[74] == "bin"@);
                }
                if k == 75 {
                    assert(b[75] == "pdb"@);
                }
                if k == 76 {
                    assert(b[76] == "drawio"@);
                }
            }
        }
    } else if x == "cjs"@ {
        assert(l[30] == x);
        assert(x[0] == 'c' && x[1] == 'j' && x[2] == 's');
        assert(!b.contains(x)) by {
            if b.contains(x) {
                let k = choose|k: int| 0 <= k < b.len() && b[k] == x;
                if k == 0 {
                    assert(b[0] == "doc"@);
                }
                if k == 1 {
                    assert(b[1] == "docx"@);
                }
                if k == 2 {
                    assert(b[2] == "dot"@);
                }
                if k == 3 {
                    assert(b[3] == "dotx"@);
                }
                if k == 4 {
                    assert(b[4] == "docm"@);
                }
                if k == 5 {
                    assert(b[5] == "xls"@);
                }
                if k == 6 {
                    assert(b[6] == "xlsx"@);
                }
                if k == 7 {
                    assert(b[7] == "xlsm"@);
                }
                if k == 8 {
                    assert(b[8] == "xlsb"@);
                }
                if k == 9 {
                    assert(b[9] == "ppt"@);
                }
                if k == 10 {
                    assert(b[10] == "pptx"@);
                }
                if k == 11 {
                    assert(b[11] == "pps"@);
                }
                if k == 12 {
                    assert(b[12] == "ppsx"@);
                }
                if k == 13 {
                    assert(b[13] == "pdf"@);
                }
                if k == 14 {
                    assert(b[14] == "rtf"@);
                }
                if k == 15 {
                    assert(b[15] == "odt"@);
                }
                if k == 16 {
                    assert(b[16] == "ods"@);
                }
                if k == 17 {
                    assert(b[17] == "odp"@);
                }
                if k == 18 {
                    assert(b[18] == "wps"@);
                }
                if k == 19 {
                    assert(b[19] == "et"@);
                }
                if k == 20 {
                    assert(b[20] == "dps"@);
                }
                if k == 21 {
                    assert(b[21] == "png"@);
                }
                if k == 22 {
                    assert(b[22] == "jpg"@);
                }
                if k == 23 {
                    assert(b[23] == "jpeg"@);
                }
                if k == 24 {
                    assert(b[24] == "gif"@);
                }
                if k == 25 {
                    assert(b[25] == "bmp"@);
                }
                if k == 26 {
                    assert(b[26] == "ico"@);
                }
                if k == 27 {
                    assert(b[27] == "webp"@);
                }
                if k == 28 {
                    assert(b[28] == "tif"@);
                }
                if k == 29 {
                    assert(b[29] == "tiff"@);
                }
                if k == 30 {
                    assert(b[30] == "emf"@);
                }
                if k == 31 {
                    assert(b[31] == "wmf"@);
                }
                if k == 32 {
                    assert(b[32] == "heic"@);
                }
                if k == 33 {
                    assert(b[33] == "psd"@);
                }
                if k == 34 {
                    assert(b[34] == "ttf"@);
                }
                if k == 35 {
                    assert(b[35] == "otf"@);
                }
                if k == 36 {
                    assert(b[36] == "woff"@);
                }
                if k == 37 {
                    assert(b[37] == "woff2"@);
                }
                if k == 38 {
                    assert(b[38] == "eot"@);
                }
                if k == 39 {
                    assert(b[39] == "mp3"@);
                }
                if k == 40 {
                    assert(b[40] == "wav"@);
                }
                if k == 41 {
                    assert(b[41] == "ogg"@);
                }
                if k == 42 {
                    assert(b[42] == "flac"@);
                }
                if k == 43 {
                    assert(b[43] == "mp4"@);
                }
                if k == 44 {
                    assert(b[44] == "avi"@);
                }
                if k == 45 {
                    assert(b[45] == "mov"@);
                }
                if k == 46 {
                    assert(b[46] == "mkv"@);
                }
                if k == 47 {
                    assert(b[47] == "wmv"@);
                }
                if k == 48 {
                    assert(b[48] == "flv"@);
                }
                if k == 49 {
                    assert(b[49] == "zip"@);
                }
                if k == 50 {
                    assert(b[50] == "rar"@);
                }
                if k == 51 {
                    assert(b[51] == "7z"@);
                }
                if k == 52 {
                    assert(b[52] == "tar"@);
                }
                if k == 53 {
                    assert(b[53] == "gz"@);
                }
                if k == 54 {
                    assert(b[54] == "bz2"@);
                }
                if k == 55 {
                    assert(b[55] == "xz"@);
                }
                if k == 56 {
                    assert(b[56] == "iso"@);
                }
                if k == 57 {
                    assert(b[57] == "exe"@);
                }
                if k == 58 {
                    assert(b[58] == "msi"@);
                }
                if k == 59 {
                    assert(b[59] == "dll"@);
                }
                if k == 60 {
                    assert(b[60] == "so"@);
                }
                if k == 61 {
                    assert(b[61] == "dylib"@);
                }
                if k == 62 {
                    assert(b[62] == "class"@);
                }
                if k == 63 {
                    assert(b[63] == "jar"@);
                }
                if k == 64 {
                    assert(b[64] == "node"@);
                }
                if k == 65 {
                    assert(b[65] == "pyc"@);
                }
                if k == 66 {
                    assert(b[66] == "o"@);
                }
                if k == 67 {
                    assert(b[67] == "obj"@);
                }
                if k == 68 {
                    assert(b[68] == "lib"@);
                }
                if k == 69 {
                    assert(b[69] == "wasm"@);
                }
                if k == 70 {
                    assert(b[70] == "db"@);
                }
                if k == 71 {
                    assert(b[71] == "sqlite"@);
                }
                if k == 72 {
                    assert(b[72] == "sqlite3"@);
                }
                if k == 73 {
                    assert(b[73] == "dat"@);
                }
                if k == 74 {
                    assert(b[74] == "bin"@);
                }
                if k == 75 {
                    assert(b[75] == "pdb"@);
                }
                if k == 76 {
                    assert(b[76] == "drawio"@);
                }
            }
        }
    } else if x == "ts"@ {
        assert(l[31] == x);
        assert(x[0] == 't' && x[1] == 's');
        assert(!b.contains(x)) by {
            if b.contains(x) {
                let k = choose|k: int| 0 <= k < b.len() && b[k] == x;
                if k == 0 {
                    assert(b[0] == "doc"@);
                }
                if k == 1 {
                    assert(b[1] == "docx"@);
                }
                if k == 2 {
                    assert(b[2] == "dot"@);
                }
                if k == 3 {
                    assert(b[3] == "dotx"@);
                }
                if k == 4 {
                    assert(b[4] == "docm"@);
                }
                if k == 5 {
                    assert(b[5] == "xls"@);
                }
                if k == 6 {
                    assert(b[6] == "xlsx"@);
                }
                if k == 7 {
                    assert(b[7] == "xlsm"@);
                }
                if k == 8 {
                    assert(b[8] == "xlsb"@);
                }
                if k == 9 {
                    assert(b[9] == "ppt"@);
                }
                if k == 10 {
                    assert(b[10] == "pptx"@);
                }
                if k == 11 {
                    assert(b[11] == "pps"@);
                }
                if k == 12 {
                    assert(b[12] == "ppsx"@);
                }
                if k == 13 {
                    assert(b[13] == "pdf"@);
                }
                if k == 14 {
                    assert(b[14] == "rtf"@);
                }
                if k == 15 {
                    assert(b[15] == "odt"@);
                }
                if k == 16 {
                    assert(b[16] == "ods"@);
                }
                if k == 17 {
                    assert(b[17] == "odp"@);
                }
                if k == 18 {
                    assert(b[18] == "wps"@);
                }
                if k == 19 {
                    assert(b[19] == "et"@);
                }
                if k == 20 {
                    assert(b[20] == "dps"@);
                }
                if k == 21 {
                    assert(b[21] == "png"@);
                }
                if k == 22 {
                    assert(b[22] == "jpg"@);
                }
                if k == 23 {
                    assert(b[23] == "jpeg"@);
                }
                if k == 24 {
                    assert(b[24] == "gif"@);
                }
                if k == 25 {
                    assert(b[25] == "bmp"@);
                }
                if k == 26 {
                    assert(b[26] == "ico"@);
                }
                if k == 27 {
                    assert(b[27] == "webp"@);
                }
                if k == 28 {
                    assert(b[28] == "tif"@);
                }
                if k == 29 {
                    assert(b[29] == "tiff"@);
                }
                if k == 30 {
                    assert(b[30] == "emf"@);
                }
                if k == 31 {
                    assert(b[31] == "wmf"@);
                }
                if k == 32 {
                    assert(b[32] == "heic"@);
                }
                if k == 33 {
                    assert(b[33] == "psd"@);
                }
                if k == 34 {
                    assert(b[34] == "ttf"@);
                }
                if k == 35 {
                    assert(b[35] == "otf"@);
                }
                if k == 36 {
                    assert(b[36] == "woff"@);
                }
                if k == 37 {
                    assert(b[37] == "woff2"@);
                }
                if k == 38 {
                    assert(b[38] == "eot"@);
                }
                if k == 39 {
                    assert(b[39] == "mp3"@);
                }
                if k == 40 {
                    assert(b[40] == "wav"@);
                }
                if k == 41 {
                    assert(b[41] == "ogg"@);
                }
                if k == 42 {
                    assert(b[42] == "flac"@);
                }
                if k == 43 {
                    assert(b[43] == "mp4"@);
                }
                if k == 44 {
                    assert(b[44] == "avi"@);
                }
                if k == 45 {
                    assert(b[45] == "mov"@);
                }
                if k == 46 {
                    assert(b[46] == "mkv"@);
                }
                if k == 47 {
                    assert(b[47] == "wmv"@);
                }
                if k == 48 {
                    assert(b[48] == "flv"@);
                }
                if k == 49 {
                    assert(b[49] == "zip"@);
                }
                if k == 50 {
                    assert(b[50] == "rar"@);
                }
                if k == 51 {
                    assert(b[51] == "7z"@);
                }
                if k == 52 {
                    assert(b[52] == "tar"@);
                }
                if k == 53 {
                    assert(b[53] == "gz"@);
                }
                if k == 54 {
                    assert(b[54] == "bz2"@);
                }
                if k == 55 {
                    assert(b[55] == "xz"@);
                }
                if k == 56 {
                    assert(b[56] == "iso"@);
                }
                if k == 57 {
                    assert(b[57] == "exe"@);
                }
                if k == 58 {
                    assert(b[58] == "msi"@);
                }
                if k == 59 {
                    assert(b[59] == "dll"@);
                }
                if k == 60 {
                    assert(b[60] == "so"@);
                }
                if k == 61 {
                    assert(b[61] == "dylib"@);
                }
                if k == 62 {
                    assert(b[62] == "class"@);
                }
                if k == 63 {
                    assert(b[63] == "jar"@);
                }
                if k == 64 {
                    assert(b[64] == "node"@);
                }
                if k == 65 {
                    assert(b[65] == "pyc"@);
                }
                if k == 66 {
                    assert(b[66] == "o"@);
                }
                if k == 67 {
                    assert(b[67] == "obj"@);
                }
                if k == 68 {
                    assert(b[68] == "lib"@);
                }
                if k == 69 {
                    assert(b[69] == "wasm"@);
                }
                if k == 70 {
                    assert(b[70] == "db"@);
                }
                if k == 71 {
                    assert(b[71] == "sqlite"@);
                }
                if k == 72 {
                    assert(b[72] == "sqlite3"@);
                }
                if k == 73 {
                    assert(b[73] == "dat"@);
                }
                if k == 74 {
                    assert(b[74] == "bin"@);
                }
                if k == 75 {
                    assert(b[75] == "pdb"@);
                }
                if k == 76 {
                    assert(b[76] == "drawio"@);
                }
            }
        }
    } else if x == "tsx"@ {
        assert(l[32] == x);
        assert(x[0] == 't' && x[1] == 's' && x[2] == 'x');
        assert(!b.contains(x)) by {
            if b.contains(x) {
                let k = choose|k: int| 0 <= k < b.len() && b[k] == x;
                if k == 0 {
                    assert(b[0] == "doc"@);
                }
                if k == 1 {
                    assert(b[1] == "docx"@);
                }
                if k == 2 {
                    assert(b[2] == "dot"@);
                }
                if k == 3 {
                    assert(b[3] == "dotx"@);
                }
                if k == 4 {
                    assert(b[4] == "docm"@);
                }
                if k == 5 {
                    assert(b[5] == "xls"@);
                }
                if k == 6 {
                    assert(b[6] == "xlsx"@);
                }
                if k == 7 {
                    assert(b[7] == "xlsm"@);
                }
                if k == 8 {
                    assert(b[8] == "xlsb"@);
                }
                if k == 9 {
                    assert(b[9] == "ppt"@);
                }
                if k == 10 {
                    assert(b[10] == "pptx"@);
                }
                if k == 11 {
                    assert(b[11] == "pps"@);
                }
                if k == 12 {
                    assert(b[12] == "ppsx"@);
                }
                if k == 13 {
                    assert(b[13] == "pdf"@);
                }
                if k == 14 {
                    assert(b[14] == "rtf"@);
                }
                if k == 15 {
                    assert(b[15] == "odt"@);
                }
                if k == 16 {
                    assert(b[16] == "ods"@);
                }
                if k == 17 {
                    assert(b[17] == "odp"@);
                }
                if k == 18 {
                    assert(b[18] == "wps"@);
                }
                if k == 19 {
                    assert(b[19] == "et"@);
                }
                if k == 20 {
                    assert(b[20] == "dps"@);
                }
                if k == 21 {
                    assert(b[21] == "png"@);
                }
                if k == 22 {
                    assert(b[22] == "jpg"@);
                }
                if k == 23 {
                    assert(b[23] == "jpeg"@);
                }
                if k == 24 {
                    assert(b[24] == "gif"@);
                }
                if k == 25 {
                    assert(b[25] == "bmp"@);
                }
                if k == 26 {
                    assert(b[26] == "ico"@);
                }
                if k == 27 {
                    assert(b[27] == "webp"@);
                }
                if k == 28 {
                    assert(b[28] == "tif"@);
                }
                if k == 29 {
                    assert(b[29] == "tiff"@);
                }
                if k == 30 {
                    assert(b[30] == "emf"@);
                }
                if k == 31 {
                    assert(b[31] == "wmf"@);
                }
                if k == 32 {
                    assert(b[32] == "heic"@);
                }
                if k == 33 {
                    assert(b[33] == "psd"@);
                }
                if k == 34 {
                    assert(b[34] == "ttf"@);
                }
                if k == 35 {
                    assert(b[35] == "otf"@);
                }
                if k == 36 {
                    assert(b[36] == "woff"@);
                }
                if k == 37 {
                    assert(b[37] == "woff2"@);
                }
                if k == 38 {
                    assert(b[38] == "eot"@);
                }
                if k == 39 {
                    assert(b[39] == "mp3"@);
                }
                if k == 40 {
                    assert(b[40] == "wav"@);
                }
                if k == 41 {
                    assert(b[41] == "ogg"@);
                }
                if k == 42 {
                    assert(b[42] == "flac"@);
                }
                if k == 43 {
                    assert(b[43] == "mp4"@);
                }
                if k == 44 {
                    assert(b[44] == "avi"@);
                }
                if k == 45 {
                    assert(b[45] == "mov"@);
                }
                if k == 46 {
                    assert(b[46] == "mkv"@);
                }
                if k == 47 {
                    assert(b[47] == "wmv"@);
                }
                if k == 48 {
                    assert(b[48] == "flv"@);
                }
                if k == 49 {
                    assert(b[49] == "zip"@);
                }
                if k == 50 {
                    assert(b[50] == "rar"@);
                }
                if k == 51 {
                    assert(b[51] == "7z"@);
                }
                if k == 52 {
                    assert(b[52] == "tar"@);
                }
                if k == 53 {
                    assert(b[53] == "gz"@);
                }
                if k == 54 {
                    assert(b[54] == "bz2"@);
                }
                if k == 55 {
                    assert(b[55] == "xz"@);
                }
                if k == 56 {
                    assert(b[56] == "iso"@);
                }
                if k == 57 {
                    assert(b[57] == "exe"@);
                }
                if k == 58 {
                    assert(b[58] == "msi"@);
                }
                if k == 59 {
                    assert(b[59] == "dll"@);
                }
                if k == 60 {
                    assert(b[60] == "so"@);
                }
                if k == 61 {
                    assert(b[61] == "dylib"@);
                }
                if k == 62 {
                    assert(b[62] == "class"@);
                }
                if k == 63 {
                    assert(b[63] == "jar"@);
                }
                if k == 64 {
                    assert(b[64] == "node"@);
                }
                if k == 65 {
                    assert(b[65] == "pyc"@);
                }
                if k == 66 {
                    assert(b[66] == "o"@);
                }
                if k == 67 {
                    assert(b[67] == "obj"@);
                }
                if k == 68 {
                    assert(b[68] == "lib"@);
                }
                if k == 69 {
                    assert(b[69] == "wasm"@);
                }
                if k == 70 {
                    assert(b[70] == "db"@);
                }
                if k == 71 {
                    assert(b[71] == "sqlite"@);
                }
                if k == 72 {
                    assert(b[72] == "sqlite3"@);
                }
                if k == 73 {
                    assert(b[73] == "dat"@);
                }
                if k == 74 {
                    assert(b[74] == "bin"@);
                }
                if k == 75 {
                    assert(b[75] == "pdb"@);
                }
                if k == 76 {
                    assert(b[76] == "drawio"@);
                }
            }
        }
    } else if x == "jsx"@ {
        assert(l[33] == x);
        assert(x[0] == 'j' && x[1] == 's' && x[2] == 'x');
        assert(!b.contains(x)) by {
            if b.contains(x) {
                let k = choose|k: int| 0 <= k < b.len() && b[k] == x;
                if k == 0 {
                    assert(b[0] == "doc"@);
                }
                if k == 1 {
                    assert(b[1] == "docx"@);
                }
                if k == 2 {
                    assert(b[2] == "dot"@);
                }
                if k == 3 {
                    assert(b[3] == "dotx"@);
                }
                if k == 4 {
                    assert(b[4] == "docm"@);
                }
                if k == 5 {
                    assert(b[5] == "xls"@);
                }
                if k == 6 {
                    assert(b[6] == "xlsx"@);
                }
                if k == 7 {
                    assert(b[7] == "xlsm"@);
                }
                if k == 8 {
                    assert(b[8] == "xlsb"@);
                }
                if k == 9 {
                    assert(b[9] == "ppt"@);
                }
                if k == 10 {
                    assert(b[10] == "pptx"@);
                }
                if k == 11 {
                    assert(b[11] == "pps"@);
                }
                if k == 12 {
                    assert(b[12] == "ppsx"@);
                }
                if k == 13 {
                    assert(b[13] == "pdf"@);
                }
                if k == 14 {
                    assert(b[14] == "rtf"@);
                }
                if k == 15 {
                    assert(b[15] == "odt"@);
                }
                if k == 16 {
                    assert(b[16] == "ods"@);
                }
                if k == 17 {
                    assert(b[17] == "odp"@);
                }
                if k == 18 {
                    assert(b[18] == "wps"@);
                }
                if k == 19 {
                    assert(b[19] == "et"@);
                }
                if k == 20 {
                    assert(b[20] == "dps"@);
                }
                if k == 21 {
                    assert(b[21] == "png"@);
                }
                if k == 22 {
                    assert(b[22] == "jpg"@);
                }
                if k == 23 {
                    assert(b[23] == "jpeg"@);
                }
                if k == 24 {
                    assert(b[24] == "gif"@);
                }
                if k == 25 {
                    assert(b[25] == "bmp"@);
                }
                if k == 26 {
                    assert(b[26] == "ico"@);
                }
                if k == 27 {
                    assert(b[27] == "webp"@);
                }
                if k == 28 {
                    assert(b[28] == "tif"@);
                }
                if k == 29 {
                    assert(b[29] == "tiff"@);
                }
                if k == 30 {
                    assert(b[30] == "emf"@);
                }
                if k == 31 {
                    assert(b[31] == "wmf"@);
                }
                if k == 32 {
                    assert(b[32] == "heic"@);
                }
                if k == 33 {
                    assert(b[33] == "psd"@);
                }
                if k == 34 {
                    assert(b[34] == "ttf"@);
                }
                if k == 35 {
                    assert(b[35] == "otf"@);
                }
                if k == 36 {
                    assert(b[36] == "woff"@);
                }
                if k == 37 {
                    assert(b[37] == "woff2"@);
                }
                if k == 38 {
                    assert(b[38] == "eot"@);
                }
                if k == 39 {
                    assert(b[39] == "mp3"@);
                }
                if k == 40 {
                    assert(b[40] == "wav"@);
                }
                if k == 41 {
                    assert(b[41] == "ogg"@);
                }
                if k == 42 {
                    assert(b[42] == "flac"@);
                }
                if k == 43 {
                    assert(b[43] == "mp4"@);
                }
                if k == 44 {
                    assert(b[44] == "avi"@);
                }
                if k == 45 {
                    assert(b[45] == "mov"@);
                }
                if k == 46 {
                    assert(b[46] == "mkv"@);
                }
                if k == 47 {
                    assert(b[47] == "wmv"@);
                }
                if k == 48 {
                    assert(b[48] == "flv"@);
                }
                if k == 49 {
                    assert(b[49] == "zip"@);
                }
                if k == 50 {
                    assert(b[50] == "rar"@);
                }
                if k == 51 {
                    assert(b[51] == "7z"@);
                }
                if k == 52 {
                    assert(b[52] == "tar"@);
                }
                if k == 53 {
                    assert(b[53] == "gz"@);
                }
                if k == 54 {
                    assert(b[54] == "bz2"@);
                }
                if k == 55 {
                    assert(b[55] == "xz"@);
                }
                if k == 56 {
                    assert(b[56] == "iso"@);
                }
                if k == 57 {
                    assert(b[57] == "exe"@);
                }
                if k == 58 {
                    assert(b[58] == "msi"@);
                }
                if k == 59 {
                    assert(b[59] == "dll"@);
                }
                if k == 60 {
                    assert(b[60] == "so"@);
                }
                if k == 61 {
                    assert(b[61] == "dylib"@);
                }
                if k == 62 {
                    assert(b[62] == "class"@);
                }
                if k == 63 {
                    assert(b[63] == "jar"@);
                }
                if k == 64 {
                    assert(b[64] == "node"@);
                }
                if k == 65 {
                    assert(b[65] == "pyc"@);
                }
                if k == 66 {
                    assert(b[66] == "o"@);
                }
                if k == 67 {
                    assert(b[67] == "obj"@);
                }
                if k == 68 {
                    assert(b[68] == "lib"@);
                }
                if k == 69 {
                    assert(b[69] == "wasm"@);
                }
                if k == 70 {
                    assert(b[70] == "db"@);
                }
                if k == 71 {
                    assert(b[71] == "sqlite"@);
                }
                if k == 72 {
                    assert(b[72] == "sqlite3"@);
                }
                if k == 73 {
                    assert(b[73] == "dat"@);
                }
                if k == 74 {
                    assert(b[74] == "bin"@);
                }
                if k == 75 {
                    assert(b[75] == "pdb"@);
                }
                if k == 76 {
                    assert(b[76] == "drawio"@);
                }
            }
        }
    } else if x == "vue"@ {
        assert(l[34] == x);
        assert(x[0] == 'v' && x[1] == 'u' && x[2] == 'e');
        assert(!b.contains(x)) by {
            if b.contains(x) {
                let k = choose|k: int| 0 <= k < b.len() && b[k] == x;
                if k == 0 {
                    assert(b[0] == "doc"@);
                }
                if k == 1 {
                    assert(b[1] == "docx"@);
                }
                if k == 2 {
                    assert(b[2] == "dot"@);
                }
                if k == 3 {
                    assert(b[3] == "dotx"@);
                }
                if k == 4 {
                    assert(b[4] == "docm"@);
                }
                if k == 5 {
                    assert(b[5] == "xls"@);
                }
                if k == 6 {
                    assert(b[6] == "xlsx"@);
                }
                if k == 7 {
                    assert(b[7] == "xlsm"@);
                }
                if k == 8 {
                    assert(b[8] == "xlsb"@);
                }
                if k == 9 {
                    assert(b[9] == "ppt"@);
                }
                if k == 10 {
                    assert(b[10] == "pptx"@);
                }
                if k == 11 {
                    assert(b[11] == "pps"@);
                }
                if k == 12 {
                    assert(b[12] == "ppsx"@);
                }
                if k == 13 {
                    assert(b[13] == "pdf"@);
                }
                if k == 14 {
                    assert(b[14] == "rtf"@);
                }
                if k == 15 {
                    assert(b[15] == "odt"@);
                }
                if k == 16 {
                    assert(b[16] == "ods"@);
                }
                if k == 17 {
                    assert(b[17] == "odp"@);
                }
                if k == 18 {
                    assert(b[18] == "wps"@);
                }
                if k == 19 {
                    assert(b[19] == "et"@);
                }
                if k == 20 {
                    assert(b[20] == "dps"@);
                }
                if k == 21 {
                    assert(b[21] == "png"@);
                }
                if k == 22 {
                    assert(b[22] == "jpg"@);
                }
                if k == 23 {
                    assert(b[23] == "jpeg"@);
                }
                if k == 24 {
                    assert(b[24] == "gif"@);
                }
                if k == 25 {
                    assert(b[25] == "bmp"@);
                }
                if k == 26 {
                    assert(b[26] == "ico"@);
                }
                if k == 27 {
                    assert(b[27] == "webp"@);
                }
                if k == 28 {
                    assert(b[28] == "tif"@);
                }
                if k == 29 {
                    assert(b[29] == "tiff"@);
                }
                if k == 30 {
                    assert(b[30] == "emf"@);
                }
                if k == 31 {
                    assert(b[31] == "wmf"@);
                }
                if k == 32 {
                    assert(b[32] == "heic"@);
                }
                if k == 33 {
                    assert(b[33] == "psd"@);
                }
                if k == 34 {
                    assert(b[34] == "ttf"@);
                }
                if k == 35 {
                    assert(b[35] == "otf"@);
                }
                if k == 36 {
                    assert(b[36] == "woff"@);
                }
                if k == 37 {
                    assert(b[37] == "woff2"@);
                }
                if k == 38 {
                    assert(b[38] == "eot"@);
                }
                if k == 39 {
                    assert(b[39] == "mp3"@);
                }
                if k == 40 {
                    assert(b[40] == "wav"@);
                }
                if k == 41 {
                    assert(b[41] == "ogg"@);
                }
                if k == 42 {
                    assert(b[42] == "flac"@);
                }
                if k == 43 {
                    assert(b[43] == "mp4"@);
                }
                if k == 44 {
                    assert(b[44] == "avi"@);
                }
                if k == 45 {
                    assert(b[45] == "mov"@);
                }
                if k == 46 {
                    assert(b[46] == "mkv"@);
                }
                if k == 47 {
                    assert(b[47] == "wmv"@);
                }
                if k == 48 {
                    assert(b[48] == "flv"@);
                }
                if k == 49 {
                    assert(b[49] == "zip"@);
                }
                if k == 50 {
                    assert(b[50] == "rar"@);
                }
                if k == 51 {
                    assert(b[51] == "7z"@);
                }
                if k == 52 {
                    assert(b[52] == "tar"@);
                }
                if k == 53 {
                    assert(b[53] == "gz"@);
                }
                if k == 54 {
                    assert(b[54] == "bz2"@);
                }
                if k == 55 {
                    assert(b[55] == "xz"@);
                }
                if k == 56 {
                    assert(b[56] == "iso"@);
                }
                if k == 57 {
                    assert(b[57] == "exe"@);
                }
                if k == 58 {
                    assert(b[58] == "msi"@);
                }
                if k == 59 {
                    assert(b[59] == "dll"@);
                }
                if k == 60 {
                    assert(b[60] == "so"@);
                }
                if k == 61 {
                    assert(b[61] == "dylib"@);
                }
                if k == 62 {
                    assert(b[62] == "class"@);
                }
                if k == 63 {
                    assert(b[63] == "jar"@);
                }
                if k == 64 {
                    assert(b[64] == "node"@);
                }
                if k == 65 {
                    assert(b[65] == "pyc"@);
                }
                if k == 66 {
                    assert(b[66] == "o"@);
                }
                if k == 67 {
                    assert(b[67] == "obj"@);
                }
                if k == 68 {
                    assert(b[68] == "lib"@);
                }
                if k == 69 {
                    assert(b[69] == "wasm"@);
                }
                if k == 70 {
                    assert(b[70] == "db"@);
                }
                if k == 71 {
                    assert(b[71] == "sqlite"@);
                }
                if k == 72 {
                    assert(b[72] == "sqlite3"@);
                }
                if k == 73 {
                    assert(b[73] == "dat"@);
                }
                if k == 74 {
                    assert(b[74] == "bin"@);
                }
                if k == 75 {
                    assert(b[75] == "pdb"@);
                }
                if k == 76 {
                    assert(b[76] == "drawio"@);
                }
            }
        }
    } else if x == "svelte"@ {
        assert(l[35] == x);
        assert(x[0] == 's' && x[1] == 'v' && x[2] == 'e' && x[3] == 'l' && x[4] == 't' && x[5] == 'e');
        assert(!b.contains(x)) by {
            if b.contains(x) {
                let k = choose|k: int| 0 <= k < b.len() && b[k] == x;
                if k == 0 {
                    assert(b[0] == "doc"@);
                }
                if k == 1 {
                    assert(b[1] == "docx"@);
                }
                if k == 2 {
                    assert(b[2] == "dot"@);
                }
                if k == 3 {
                    assert(b[3] == "dotx"@);
                }
                if k == 4 {
                    assert(b[4] == "docm"@);
                }
                if k == 5 {
                    assert(b[5] == "xls"@);
                }
                if k == 6 {
                    assert(b[6] == "xlsx"@);
                }
                if k == 7 {
                    assert(b[7] == "xlsm"@);
                }
                if k == 8 {
                    assert(b[8] == "xlsb"@);
                }
                if k == 9 {
                    assert(b[9] == "ppt"@);
                }
                if k == 10 {
                    assert(b[10] == "pptx"@);
                }
                if k == 11 {
                    assert(b[11] == "pps"@);
                }
                if k == 12 {
                    assert(b[12] == "ppsx"@);
                }
                if k == 13 {
                    assert(b[13] == "pdf"@);
                }
                if k == 14 {
                    assert(b[14] == "rtf"@);
                }
                if k == 15 {
                    assert(b[15] == "odt"@);
                }
                if k == 16 {
                    assert(b[16] == "ods"@);
                }
                if k == 17 {
                    assert(b[17] == "odp"@);
                }
                if k == 18 {
                    assert(b[18] == "wps"@);
                }
                if k == 19 {
                    assert(b[19] == "et"@);
                }
                if k == 20 {
                    assert(b[20] == "dps"@);
                }
                if k == 21 {
                    assert(b[21] == "png"@);
                }
                if k == 22 {
                    assert(b[22] == "jpg"@);
                }
                if k == 23 {
                    assert(b[23] == "jpeg"@);
                }
                if k == 24 {
                    assert(b[24] == "gif"@);
                }
                if k == 25 {
                    assert(b[25] == "bmp"@);
                }
                if k == 26 {
                    assert(b[26] == "ico"@);
                }
                if k == 27 {
                    assert(b[27] == "webp"@);
                }
                if k == 28 {
                    assert(b[28] == "tif"@);
                }
                if k == 29 {
                    assert(b[29] == "tiff"@);
                }
                if k == 30 {
                    assert(b[30] == "emf"@);
                }
                if k == 31 {
                    assert(b[31] == "wmf"@);
                }
                if k == 32 {
                    assert(b[32] == "heic"@);
                }
                if k == 33 {
                    assert(b[33] == "psd"@);
                }
                if k == 34 {
                    assert(b[34] == "ttf"@);
                }
                if k == 35 {
                    assert(b[35] == "otf"@);
                }
                if k == 36 {
                    assert(b[36] == "woff"@);
                }
                if k == 37 {
                    assert(b[37] == "woff2"@);
                }
                if k == 38 {
                    assert(b[38] == "eot"@);
                }
                if k == 39 {
                    assert(b[39] == "mp3"@);
                }
                if k == 40 {
                    assert(b[40] == "wav"@);
                }
                if k == 41 {
                    assert(b[41] == "ogg"@);
                }
                if k == 42 {
                    assert(b[42] == "flac"@);
                }
                if k == 43 {
                    assert(b[43] == "mp4"@);
                }
                if k == 44 {
                    assert(b[44] == "avi"@);
                }
                if k == 45 {
                    assert(b[45] == "mov"@);
                }
                if k == 46 {
                    assert(b[46] == "mkv"@);
                }
                if k == 47 {
                    assert(b[47] == "wmv"@);
                }
                if k == 48 {
                    assert(b[48] == "flv"@);
                }
                if k == 49 {
                    assert(b[49] == "zip"@);
                }
                if k == 50 {
                    assert(b[50] == "rar"@);
                }
                if k == 51 {
                    assert(b[51] == "7z"@);
                }
                if k == 52 {
                    assert(b[52] == "tar"@);
                }
                if k == 53 {
                    assert(b[53] == "gz"@);
                }
                if k == 54 {
                    assert(b[54] == "bz2"@);
                }
                if k == 55 {
                    assert(b[55] == "xz"@);
                }
                if k == 56 {
                    assert(b[56] == "iso"@);
                }
                if k == 57 {
                    assert(b[57] == "exe"@);
                }
                if k == 58 {
                    assert(b[58] == "msi"@);
                }
                if k == 59 {
                    assert(b[59] == "dll"@);
                }
                if k == 60 {
                    assert(b[60] == "so"@);
                }
                if k == 61 {
                    assert(b[61] == "dylib"@);
                }
                if k == 62 {
                    assert(b[62] == "class"@);
                }
                if k == 63 {
                    assert(b[63] == "jar"@);
                }
                if k == 64 {
                    assert(b[64] == "node"@);
                }
                if k == 65 {
                    assert(b[65] == "pyc"@);
                }
                if k == 66 {
                    assert(b[66] == "o"@);
                }
                if k == 67 {
                    assert(b[67] == "obj"@);
                }
                if k == 68 {
                    assert(b[68] == "lib"@);
                }
                if k == 69 {
                    assert(b[69] == "wasm"@);
                }
                if k == 70 {
                    assert(b[70] == "db"@);
                }
                if k == 71 {
                    assert(b[71] == "sqlite"@);
                }
                if k == 72 {
                    assert(b[72] == "sqlite3"@);
                }
                if k == 73 {
                    assert(b[73] == "dat"@);
                }
                if k == 74 {
                    assert(b[74] == "bin"@);
                }
                if k == 75 {
                    assert(b[75] == "pdb"@);
                }
                if k == 76 {
                    assert(b[76] == "drawio"@);
                }
            }
        }
    } else if x == "rs"@ {
        assert(l[36] == x);
        assert(x[0] == 'r' && x[1] == 's');
        assert(!b.contains(x)) by {
            if b.contains(x) {
                let k = choose|k: int| 0 <= k < b.len() && b[k] == x;
                if k == 0 {
                    assert(b[0] == "doc"@);
                }
                if k == 1 {
                    assert(b[1] == "docx"@);
                }
                if k == 2 {
                    assert(b[2] == "dot"@);
                }
                if k == 3 {
                    assert(b[3] == "dotx"@);
                }
                if k == 4 {
                    assert(b[4] == "docm"@);
                }
                if k == 5 {
                    assert(b[5] == "xls"@);
                }
                if k == 6 {
                    assert(b[6] == "xlsx"@);
                }
                if k == 7 {
                    assert(b[7] == "xlsm"@);
                }
                if k == 8 {
                    assert(b[8] == "xlsb"@);
                }
                if k == 9 {
                    assert(b[9] == "ppt"@);
                }
                if k == 10 {
                    assert(b[10] == "pptx"@);
                }
                if k == 11 {
                    assert(b[11] == "pps"@);
                }
                if k == 12 {
                    assert(b[12] == "ppsx"@);
                }
                if k == 13 {
                    assert(b[13] == "pdf"@);
                }
                if k == 14 {
                    assert(b[14] == "rtf"@);
                }
                if k == 15 {
                    assert(b[15] == "odt"@);
                }
                if k == 16 {
                    assert(b[16] == "ods"@);
                }
                if k == 17 {
                    assert(b[17] == "odp"@);
                }
                if k == 18 {
                    assert(b[18] == "wps"@);
                }
                if k == 19 {
                    assert(b[19] == "et"@);
                }
                if k == 20 {
                    assert(b[20] == "dps"@);
                }
                if k == 21 {
                    assert(b[21] == "png"@);
                }
                if k == 22 {
                    assert(b[22] == "jpg"@);
                }
                if k == 23 {
                    assert(b[23] == "jpeg"@);
                }
                if k == 24 {
                    assert(b[24] == "gif"@);
                }
                if k == 25 {
                    assert(b[25] == "bmp"@);
                }
                if k == 26 {
                    assert(b[26] == "ico"@);
                }
                if k == 27 {
                    assert(b[27] == "webp"@);
                }
                if k == 28 {
                    assert(b[28] == "tif"@);
                }
                if k == 29 {
                    assert(b[29] == "tiff"@);
                }
                if k == 30 {
                    assert(b[30] == "emf"@);
                }
                if k == 31 {
                    assert(b[31] == "wmf"@);
                }
                if k == 32 {
                    assert(b[32] == "heic"@);
                }
                if k == 33 {
                    assert(b[33] == "psd"@);
                }
                if k == 34 {
                    assert(b[34] == "ttf"@);
                }
                if k == 35 {
                    assert(b[35] == "otf"@);
                }
                if k == 36 {
                    assert(b[36] == "woff"@);
                }
                if k == 37 {
                    assert(b[37] == "woff2"@);
                }
                if k == 38 {
                    assert(b[38] == "eot"@);
                }
                if k == 39 {
                    assert(b[39] == "mp3"@);
                }
                if k == 40 {
                    assert(b[40] == "wav"@);
                }
                if k == 41 {
                    assert(b[41] == "ogg"@);
                }
                if k == 42 {
                    assert(b[42] == "flac"@);
                }
                if k == 43 {
                    assert(b[43] == "mp4"@);
                }
                if k == 44 {
                    assert(b[44] == "avi"@);
                }
                if k == 45 {
                    assert(b[45] == "mov"@);
                }
                if k == 46 {
                    assert(b[46] == "mkv"@);
                }
                if k == 47 {
                    assert(b[47] == "wmv"@);
                }
                if k == 48 {
                    assert(b[48] == "flv"@);
                }
                if k == 49 {
                    assert(b[49] == "zip"@);
                }
                if k == 50 {
                    assert(b[50] == "rar"@);
                }
                if k == 51 {
                    assert(b[51] == "7z"@);
                }
                if k == 52 {
                    assert(b[52] == "tar"@);
                }
                if k == 53 {
                    assert(b[53] == "gz"@);
                }
                if k == 54 {
                    assert(b[54] == "bz2"@);
                }
                if k == 55 {
                    assert(b[55] == "xz"@);
                }
                if k == 56 {
                    assert(b[56] == "iso"@);
                }
                if k == 57 {
                    assert(b[57] == "exe"@);
                }
                if k == 58 {
                    assert(b[58] == "msi"@);
                }
                if k == 59 {
                    assert(b[59] == "dll"@);
                }
                if k == 60 {
                    assert(b[60] == "so"@);
                }
                if k == 61 {
                    assert(b[61] == "dylib"@);
                }
                if k == 62 {
                    assert(b[62] == "class"@);
                }
                if k == 63 {
                    assert(b[63] == "jar"@);
                }
                if k == 64 {
                    assert(b[64] == "node"@);
                }
                if k == 65 {
                    assert(b[65] == "pyc"@);
                }
                if k == 66 {
                    assert(b[66] == "o"@);
                }
                if k == 67 {
                    assert(b[67] == "obj"@);
                }
                if k == 68 {
                    assert(b[68] == "lib"@);
                }
                if k == 69 {
                    assert(b[69] == "wasm"@);
                }
                if k == 70 {
                    assert(b[70] == "db"@);
                }
                if k == 71 {
                    assert(b[71] == "sqlite"@);
                }
                if k == 72 {
                    assert(b[72] == "sqlite3"@);
                }
                if k == 73 {
                    assert(b[73] == "dat"@);
                }
                if k == 74 {
                    assert(b[74] == "bin"@);
                }
                if k == 75 {
                    assert(b[75] == "pdb"@);
                }
                if k == 76 {
                    assert(b[76] == "drawio"@);
                }
            }
        }
    } else if x == "py"@ {
        assert(l[37] == x);
        assert(x[0] == 'p' && x[1] == 'y');
        assert(!b.contains(x)) by {
            if b.contains(x) {
                let k = choose|k: int| 0 <= k < b.len() && b[k] == x;
                if k == 0 {
                    assert(b[0] == "doc"@);
                }
                if k == 1 {
                    assert(b[1] == "docx"@);
                }
                if k == 2 {
                    assert(b[2] == "dot"@);
                }
                if k == 3 {
                    assert(b[3] == "dotx"@);
                }
                if k == 4 {
                    assert(b[4] == "docm"@);
                }
                if k == 5 {
                    assert(b[5] == "xls"@);
                }
                if k == 6 {
                    assert(b[6] == "xlsx"@);
                }
                if k == 7 {
                    assert(b[7] == "xlsm"@);
                }
                if k == 8 {
                    assert(b[8] == "xlsb"@);
                }
                if k == 9 {
                    assert(b[9] == "ppt"@);
                }
                if k == 10 {
                    assert(b[10] == "pptx"@);
                }
                if k == 11 {
                    assert(b[11] == "pps"@);
                }
                if k == 12 {
                    assert(b[12] == "ppsx"@);
                }
                if k == 13 {
                    assert(b[13] == "pdf"@);
                }
                if k == 14 {
                    assert(b[14] == "rtf"@);
                }
                if k == 15 {
                    assert(b[15] == "odt"@);
                }
                if k == 16 {
                    assert(b[16] == "ods"@);
                }
                if k == 17 {
                    assert(b[17] == "odp"@);
                }
                if k == 18 {
                    assert(b[18] == "wps"@);
                }
                if k == 19 {
                    assert(b[19] == "et"@);
                }
                if k == 20 {
                    assert(b[20] == "dps"@);
                }
                if k == 21 {
                    assert(b[21] == "png"@);
                }
                if k == 22 {
                    assert(b[22] == "jpg"@);
                }
                if k == 23 {
                    assert(b[23] == "jpeg"@);
                }
                if k == 24 {
                    assert(b[24] == "gif"@);
                }
                if k == 25 {
                    assert(b[25] == "bmp"@);
                }
                if k == 26 {
                    assert(b[26] == "ico"@);
                }
                if k == 27 {
                    assert(b[27] == "webp"@);
                }
                if k == 28 {
                    assert(b[28] == "tif"@);
                }
                if k == 29 {
                    assert(b[29] == "tiff"@);
                }
                if k == 30 {
                    assert(b[30] == "emf"@);
                }
                if k == 31 {
                    assert(b[31] == "wmf"@);
                }
                if k == 32 {
                    assert(b[32] == "heic"@);
                }
                if k == 33 {
                    assert(b[33] == "psd"@);
                }
                if k == 34 {
                    assert(b[34] == "ttf"@);
                }
                if k == 35 {
                    assert(b[35] == "otf"@);
                }
                if k == 36 {
                    assert(b[36] == "woff"@);
                }
                if k == 37 {
                    assert(b[37] == "woff2"@);
                }
                if k == 38 {
                    assert(b[38] == "eot"@);
                }
                if k == 39 {
                    assert(b[39] == "mp3"@);
                }
                if k == 40 {
                    assert(b[40] == "wav"@);
                }
                if k == 41 {
                    assert(b[41] == "ogg"@);
                }
                if k == 42 {
                    assert(b[42] == "flac"@);
                }
                if k == 43 {
                    assert(b[43] == "mp4"@);
                }
                if k == 44 {
                    assert(b[44] == "avi"@);
                }
                if k == 45 {
                    assert(b[45] == "mov"@);
                }
                if k == 46 {
                    assert(b[46] == "mkv"@);
                }
                if k == 47 {
                    assert(b[47] == "wmv"@);
                }
                if k == 48 {
                    assert(b[48] == "flv"@);
                }
                if k == 49 {
                    assert(b[49] == "zip"@);
                }
                if k == 50 {
                    assert(b[50] == "rar"@);
                }
                if k == 51 {
                    assert(b[51] == "7z"@);
                }
                if k == 52 {
                    assert(b[52] == "tar"@);
                }
                if k == 53 {
                    assert(b[53] == "gz"@);
                }
                if k == 54 {
                    assert(b[54] == "bz2"@);
                }
                if k == 55 {
                    assert(b[55] == "xz"@);
                }
                if k == 56 {
                    assert(b[56] == "iso"@);
                }
                if k == 57 {
                    assert(b[57] == "exe"@);
                }
                if k == 58 {
                    assert(b[58] == "msi"@);
                }
                if k == 59 {
                    assert(b[59] == "dll"@);
                }
                if k == 60 {
                    assert(b[60] == "so"@);
                }
                if k == 61 {
                    assert(b[61] == "dylib"@);
                }
                if k == 62 {
                    assert(b[62] == "class"@);
                }
                if k == 63 {
                    assert(b[63] == "jar"@);
                }
                if k == 64 {
                    assert(b[64] == "node"@);
                }
                if k == 65 {
                    assert(b[65] == "pyc"@);
                }
                if k == 66 {
                    assert(b[66] == "o"@);
                }
                if k == 67 {
                    assert(b[67] == "obj"@);
                }
                if k == 68 {
                    assert(b[68] == "lib"@);
                }
                if k == 69 {
                    assert(b[69] == "wasm"@);
                }
                if k == 70 {
                    assert(b[70] == "db"@);
                }
                if k == 71 {
                    assert(b[71] == "sqlite"@);
                }
                if k == 72 {
                    assert(b[72] == "sqlite3"@);
                }
                if k == 73 {
                    assert(b[73] == "dat"@);
                }
                if k == 74 {
                    assert(b[74] == "bin"@);
                }
                if k == 75 {
                    assert(b[75] == "pdb"@);
                }
                if k == 76 {
                    assert(b[76] == "drawio"@);
                }
            }
        }
    } else if x == "rb"@ {
        assert(l[38] == x);
        assert(x[0] == 'r' && x[1] == 'b');
        assert(!b.contains(x)) by {
            if b.contains(x) {
                let k = choose|k: int| 0 <= k < b.len() && b[k] == x;
                if k == 0 {
                    assert(b[0] == "doc"@);
                }
                if k == 1 {
                    assert(b[1] == "docx"@);
                }
                if k == 2 {
                    assert(b[2] == "dot"@);
                }
                if k == 3 {
                    assert(b[3] == "dotx"@);
                }
                if k == 4 {
                    assert(b[4] == "docm"@);
                }
                if k == 5 {
                    assert(b[5] == "xls"@);
                }
                if k == 6 {
                    assert(b[6] == "xlsx"@);
                }
                if k == 7 {
                    assert(b[7] == "xlsm"@);
                }
                if k == 8 {
                    assert(b[8] == "xlsb"@);
                }
                if k == 9 {
                    assert(b[9] == "ppt"@);
                }
                if k == 10 {
                    assert(b[10] == "pptx"@);
                }
                if k == 11 {
                    assert(b[11] == "pps"@);
                }
                if k == 12 {
                    assert(b[12] == "ppsx"@);
                }
                if k == 13 {
                    assert(b[13] == "pdf"@);
                }
                if k == 14 {
                    assert(b[14] == "rtf"@);
                }
                if k == 15 {
                    assert(b[15] == "odt"@);
                }
                if k == 16 {
                    assert(b[16] == "ods"@);
                }
                if k == 17 {
                    assert(b[17] == "odp"@);
                }
                if k == 18 {
                    assert(b[18] == "wps"@);
                }
                if k == 19 {
                    assert(b[19] == "et"@);
                }
                if k == 20 {
                    assert(b[20] == "dps"@);
                }
                if k == 21 {
                    assert(b[21] == "png"@);
                }
                if k == 22 {
                    assert(b[22] == "jpg"@);
                }
                if k == 23 {
                    assert(b[23] == "jpeg"@);
                }
                if k == 24 {
                    assert(b[24] == "gif"@);
                }
                if k == 25 {
                    assert(b[25] == "bmp"@);
                }
                if k == 26 {
                    assert(b[26] == "ico"@);
                }
                if k == 27 {
                    assert(b[27] == "webp"@);
                }
                if k == 28 {
                    assert(b[28] == "tif"@);
                }
                if k == 29 {
                    assert(b[29] == "tiff"@);
                }
                if k == 30 {
                    assert(b[30] == "emf"@);
                }
                if k == 31 {
                    assert(b[31] == "wmf"@);
                }
                if k == 32 {
                    assert(b[32] == "heic"@);
                }
                if k == 33 {
                    assert(b[33] == "psd"@);
                }
                if k == 34 {
                    assert(b[34] == "ttf"@);
                }
                if k == 35 {
                    assert(b[35] == "otf"@);
                }
                if k == 36 {
                    assert(b[36] == "woff"@);
                }
                if k == 37 {
                    assert(b[37] == "woff2"@);
                }
                if k == 38 {
                    assert(b[38] == "eot"@);
                }
                if k == 39 {
                    assert(b[39] == "mp3"@);
                }
                if k == 40 {
                    assert(b[40] == "wav"@);
                }
                if k == 41 {
                    assert(b[41] == "ogg"@);
                }
                if k == 42 {
                    assert(b[42] == "flac"@);
                }
                if k == 43 {
                    assert(b[43] == "mp4"@);
                }
                if k == 44 {
                    assert(b[44] == "avi"@);
                }
                if k == 45 {
                    assert(b[45] == "mov"@);
                }
                if k == 46 {
                    assert(b[46] == "mkv"@);
                }
                if k == 47 {
                    assert(b[47] == "wmv"@);
                }
                if k == 48 {
                    assert(b[48] == "flv"@);
                }
                if k == 49 {
                    assert(b[49] == "zip"@);
                }
                if k == 50 {
                    assert(b[50] == "rar"@);
                }
                if k == 51 {
                    assert(b[51] == "7z"@);
                }
                if k == 52 {
                    assert(b[52] == "tar"@);
                }
                if k == 53 {
                    assert(b[53] == "gz"@);
                }
                if k == 54 {
                    assert(b[54] == "bz2"@);
                }
                if k == 55 {
                    assert(b[55] == "xz"@);
                }
                if k == 56 {
                    assert(b[56] == "iso"@);
                }
                if k == 57 {
                    assert(b[57] == "exe"@);
                }
                if k == 58 {
                    assert(b[58] == "msi"@);
                }
                if k == 59 {
                    assert(b[59] == "dll"@);
                }
                if k == 60 {
                    assert(b[60] == "so"@);
                }
                if k == 61 {
                    assert(b[61] == "dylib"@);
                }
                if k == 62 {
                    assert(b[62] == "class"@);
                }
                if k == 63 {
                    assert(b[63] == "jar"@);
                }
                if k == 64 {
                    assert(b[64] == "node"@);
                }
                if k == 65 {
                    assert(b[65] == "pyc"@);
                }
                if k == 66 {
                    assert(b[66] == "o"@);
                }
                if k == 67 {
                    assert(b[67] == "obj"@);
                }
                if k == 68 {
                    assert(b[68] == "lib"@);
                }
                if k == 69 {
                    assert(b[69] == "wasm"@);
                }
                if k == 70 {
                    assert(b[70] == "db"@);
                }
                if k == 71 {
                    assert(b[71] == "sqlite"@);
                }
                if k == 72 {
                    assert(b[72] == "sqlite3"@);
                }
                if k == 73 {
                    assert(b[73] == "dat"@);
                }
                if k == 74 {
                    assert(b[74] == "bin"@);
                }
                if k == 75 {
                    assert(b[75] == "pdb"@);
                }
                if k == 76 {
                    assert(b[76] == "drawio"@);
                }
            }
        }
    } else if x == "go"@ {
        assert(l[39] == x);
        assert(x[0] == 'g' && x[1] == 'o');
        assert(!b.contains(x)) by {
            if b.contains(x) {
                let k = choose|k: int| 0 <= k < b.len() && b[k] == x;
                if k == 0 {
                    assert(b[0] == "doc"@);
                }
                if k == 1 {
                    assert(b[1] == "docx"@);
                }
                if k == 2 {
                    assert(b[2] == "dot"@);
                }
                if k == 3 {
                    assert(b[3] == "dotx"@);
                }
                if k == 4 {
                    assert(b[4] == "docm"@);
                }
                if k == 5 {
                    assert(b[5] == "xls"@);
                }
                if k == 6 {
                    assert(b[6] == "xlsx"@);
                }
                if k == 7 {
                    assert(b[7] == "xlsm"@);
                }
                if k == 8 {
                    assert(b[8] == "xlsb"@);
                }
                if k == 9 {
                    assert(b[9] == "ppt"@);
                }
                if k == 10 {
                    assert(b[10] == "pptx"@);
                }
                if k == 11 {
                    assert(b[11] == "pps"@);
                }
                if k == 12 {
                    assert(b[12] == "ppsx"@);
                }
                if k == 13 {
                    assert(b[13] == "pdf"@);
                }
                if k == 14 {
                    assert(b[14] == "rtf"@);
                }
                if k == 15 {
                    assert(b[15] == "odt"@);
                }
                if k == 16 {
                    assert(b[16] == "ods"@);
                }
                if k == 17 {
                    assert(b[17] == "odp"@);
                }
                if k == 18 {
                    assert(b[18] == "wps"@);
                }
                if k == 19 {
                    assert(b[19] == "et"@);
                }
                if k == 20 {
                    assert(b[20] == "dps"@);
                }
                if k == 21 {
                    assert(b[21] == "png"@);
                }
                if k == 22 {
                    assert(b[22] == "jpg"@);
                }
                if k == 23 {
                    assert(b[23] == "jpeg"@);
                }
                if k == 24 {
                    assert(b[24] == "gif"@);
                }
                if k == 25 {
                    assert(b[25] == "bmp"@);
                }
                if k == 26 {
                    assert(b[26] == "ico"@);
                }
                if k == 27 {
                    assert(b[27] == "webp"@);
                }
                if k == 28 {
                    assert(b[28] == "tif"@);
                }
                if k == 29 {
                    assert(b[29] == "tiff"@);
                }
                if k == 30 {
                    assert(b[30] == "emf"@);
                }
                if k == 31 {
                    assert(b[31] == "wmf"@);
                }
                if k == 32 {
                    assert(b[32] == "heic"@);
                }
                if k == 33 {
                    assert(b[33] == "psd"@);
                }
                if k == 34 {
                    assert(b[34] == "ttf"@);
                }
                if k == 35 {
                    assert(b[35] == "otf"@);
                }
                if k == 36 {
                    assert(b[36] == "woff"@);
                }
                if k == 37 {
                    assert(b[37] == "woff2"@);
                }
                if k == 38 {
                    assert(b[38] == "eot"@);
                }
                if k == 39 {
                    assert(b[39] == "mp3"@);
                }
                if k == 40 {
                    assert(b[40] == "wav"@);
                }
                if k == 41 {
                    assert(b[41] == "ogg"@);
                }
                if k == 42 {
                    assert(b[42] == "flac"@);
                }
                if k == 43 {
                    assert(b[43] == "mp4"@);
                }
                if k == 44 {
                    assert(b[44] == "avi"@);
                }
                if k == 45 {
                    assert(b[45] == "mov"@);
                }
                if k == 46 {
                    assert(b[46] == "mkv"@);
                }
                if k == 47 {
                    assert(b[47] == "wmv"@);
                }
                if k == 48 {
                    assert(b[48] == "flv"@);
                }
                if k == 49 {
                    assert(b[49] == "zip"@);
                }
                if k == 50 {
                    assert(b[50] == "rar"@);
                }
                if k == 51 {
                    assert(b[51] == "7z"@);
                }
                if k == 52 {
                    assert(b[52] == "tar"@);
                }
                if k == 53 {
                    assert(b[53] == "gz"@);
                }
                if k == 54 {
                    assert(b[54] == "bz2"@);
                }
                if k == 55 {
                    assert(b[55] == "xz"@);
                }
                if k == 56 {
                    assert(b[56] == "iso"@);
                }
                if k == 57 {
                    assert(b[57] == "exe"@);
                }
                if k == 58 {
                    assert(b[58] == "msi"@);
                }
                if k == 59 {
                    assert(b[59] == "dll"@);
                }
                if k == 60 {
                    assert(b[60] == "so"@);
                }
                if k == 61 {
                    assert(b[61] == "dylib"@);
                }
                if k == 62 {
                    assert(b[62] == "class"@);
                }
                if k == 63 {
                    assert(b[63] == "jar"@);
                }
                if k == 64 {
                    assert(b[64] == "node"@);
                }
                if k == 65 {
                    assert(b[65] == "pyc"@);
                }
                if k == 66 {
                    assert(b[66] == "o"@);
                }
                if k == 67 {
                    assert(b[67] == "obj"@);
                }
                if k == 68 {
                    assert(b[68] == "lib"@);
                }
                if k == 69 {
                    assert(b[69] == "wasm"@);
                }
                if k == 70 {
                    assert(b[70] == "db"@);
                }
                if k == 71 {
                    assert(b[71] == "sqlite"@);
                }
                if k == 72 {
                    assert(b[72] == "sqlite3"@);
                }
                if k == 73 {
                    assert(b[73] == "dat"@);
                }
                if k == 74 {
                    assert(b[74] == "bin"@);
                }
                if k == 75 {
                    assert(b[75] == "pdb"@);
                }
                if k == 76 {
                    assert(b[76] == "drawio"@);
                }
            }
        }
    } else if x == "java"@ {
        assert(l[40] == x);
        assert(x[0] == 'j' && x[1] == 'a' && x[2] == 'v' && x[3] == 'a');
        assert(!b.contains(x)) by {
            if b.contains(x) {
                let k = choose|k: int| 0 <= k < b.len() && b[k] == x;
                if k == 0 {
                    assert(b[0] == "doc"@);
                }
                if k == 1 {
                    assert(b[1] == "docx"@);
                }
                if k == 2 {
                    assert(b[2] == "dot"@);
                }
                if k == 3 {
                    assert(b[3] == "dotx"@);
                }
                if k == 4 {
                    assert(b[4] == "docm"@);
                }
                if k == 5 {
                    assert(b[5] == "xls"@);
                }
                if k == 6 {
                    assert(b[6] == "xlsx"@);
                }
                if k == 7 {
                    assert(b[7] == "xlsm"@);
                }
                if k == 8 {
                    assert(b[8] == "xlsb"@);
                }
                if k == 9 {
                    assert(b[9] == "ppt"@);
                }
                if k == 10 {
                    assert(b[10] == "pptx"@);
                }
                if k == 11 {
                    assert(b[11] == "pps"@);
                }
                if k == 12 {
                    assert(b[12] == "ppsx"@);
                }
                if k == 13 {
                    assert(b[13] == "pdf"@);
                }
                if k == 14 {
                    assert(b[14] == "rtf"@);
                }
                if k == 15 {
                    assert(b[15] == "odt"@);
                }
                if k == 16 {
                    assert(b[16] == "ods"@);
                }
                if k == 17 {
                    assert(b[17] == "odp"@);
                }
                if k == 18 {
                    assert(b[18] == "wps"@);
                }
                if k == 19 {
                    assert(b[19] == "et"@);
                }
                if k == 20 {
                    assert(b[20] == "dps"@);
                }
                if k == 21 {
                    assert(b[21] == "png"@);
                }
                if k == 22 {
                    assert(b[22] == "jpg"@);
                }
                if k == 23 {
                    assert(b[23] == "jpeg"@);
                }
                if k == 24 {
                    assert(b[24] == "gif"@);
                }
                if k == 25 {
                    assert(b[25] == "bmp"@);
                }
                if k == 26 {
                    assert(b[26] == "ico"@);
                }
                if k == 27 {
                    assert(b[27] == "webp"@);
                }
                if k == 28 {
                    assert(b[28] == "tif"@);
                }
                if k == 29 {
                    assert(b[29] == "tiff"@);
                }
                if k == 30 {
                    assert(b[30] == "emf"@);
                }
                if k == 31 {
                    assert(b[31] == "wmf"@);
                }
                if k == 32 {
                    assert(b[32] == "heic"@);
                }
                if k == 33 {
                    assert(b[33] == "psd"@);
                }
                if k == 34 {
                    assert(b[34] == "ttf"@);
                }
                if k == 35 {
                    assert(b[35] == "otf"@);
                }
                if k == 36 {
                    assert(b[36] == "woff"@);
                }
                if k == 37 {
                    assert(b[37] == "woff2"@);
                }
                if k == 38 {
                    assert(b[38] == "eot"@);
                }
                if k == 39 {
                    assert(b[39] == "mp3"@);
                }
                if k == 40 {
                    assert(b[40] == "wav"@);
                }
                if k == 41 {
                    assert(b[41] == "ogg"@);
                }
                if k == 42 {
                    assert(b[42] == "flac"@);
                }
                if k == 43 {
                    assert(b[43] == "mp4"@);
                }
                if k == 44 {
                    assert(b[44] == "avi"@);
                }
                if k == 45 {
                    assert(b[45] == "mov"@);
                }
                if k == 46 {
                    assert(b[46] == "mkv"@);
                }
                if k == 47 {
                    assert(b[47] == "wmv"@);
                }
                if k == 48 {
                    assert(b[48] == "flv"@);
                }
                if k == 49 {
                    assert(b[49] == "zip"@);
                }
                if k == 50 {
                    assert(b[50] == "rar"@);
                }
                if k == 51 {
                    assert(b[51] == "7z"@);
                }
                if k == 52 {
                    assert(b[52] == "tar"@);
                }
                if k == 53 {
                    assert(b[53] == "gz"@);
                }
                if k == 54 {
                    assert(b[54] == "bz2"@);
                }
                if k == 55 {
                    assert(b[55] == "xz"@);
                }
                if k == 56 {
                    assert(b[56] == "iso"@);
                }
                if k == 57 {
                    assert(b[57] == "exe"@);
                }
                if k == 58 {
                    assert(b[58] == "msi"@);
                }
                if k == 59 {
                    assert(b[59] == "dll"@);
                }
                if k == 60 {
                    assert(b[60] == "so"@);
                }
                if k == 61 {
                    assert(b[61] == "dylib"@);
                }
                if k == 62 {
                    assert(b[62] == "class"@);
                }
                if k == 63 {
                    assert(b[63] == "jar"@);
                }
                if k == 64 {
                    assert(b[64] == "node"@);
                }
                if k == 65 {
                    assert(b[65] == "pyc"@);
                }
                if k == 66 {
                    assert(b[66] == "o"@);
                }
                if k == 67 {
                    assert(b[67] == "obj"@);
                }
                if k == 68 {
                    assert(b[68] == "lib"@);
                }
                if k == 69 {
                    assert(b[69] == "wasm"@);
                }
                if k == 70 {
                    assert(b[70] == "db"@);
                }
                if k == 71 {
                    assert(b[71] == "sqlite"@);
                }
                if k == 72 {
                    assert(b[72] == "sqlite3"@);
                }
                if k == 73 {
                    assert(b[73] == "dat"@);
                }
                if k == 74 {
                    assert(b[74] == "bin"@);
                }
                if k == 75 {
                    assert(b[75] == "pdb"@);
                }
                if k == 76 {
                    assert(b[76] == "drawio"@);
                }
            }
        }
    } else if x == "sql"@ {
        assert(l[41] == x);
        assert(x[0] == 's' && x[1] == 'q' && x[2] == 'l');
        assert(!b.contains(x)) by {
            if b.contains(x) {
                let k = choose|k: int| 0 <= k < b.len() && b[k] == x;
                if k == 0 {
                    assert(b[0] == "doc"@);
                }
                if k == 1 {
                    assert(b[1] == "docx"@);
                }
                if k == 2 {
                    assert(b[2] == "dot"@);
                }
                if k == 3 {
                    assert(b[3] == "dotx"@);
                }
                if k == 4 {
                    assert(b[4] == "docm"@);
                }
                if k == 5 {
                    assert(b[5] == "xls"@);
                }
                if k == 6 {
                    assert(b[6] == "xlsx"@);
                }
                if k == 7 {
                    assert(b[7] == "xlsm"@);
                }
                if k == 8 {
                    assert(b[8] == "xlsb"@);
                }
                if k == 9 {
                    assert(b[9] == "ppt"@);
                }
                if k == 10 {
                    assert(b[10] == "pptx"@);
                }
                if k == 11 {
                    assert(b[11] == "pps"@);
                }
                if k == 12 {
                    assert(b[12] == "ppsx"@);
                }
                if k == 13 {
                    assert(b[13] == "pdf"@);
                }
                if k == 14 {
                    assert(b[14] == "rtf"@);
                }
                if k == 15 {
                    assert(b[15] == "odt"@);
                }
                if k == 16 {
                    assert(b[16] == "ods"@);
                }
                if k == 17 {
                    assert(b[17] == "odp"@);
                }
                if k == 18 {
                    assert(b[18] == "wps"@);
                }
                if k == 19 {
                    assert(b[19] == "et"@);
                }
                if k == 20 {
                    assert(b[20] == "dps"@);
                }
                if k == 21 {
                    assert(b[21] == "png"@);
                }
                if k == 22 {
                    assert(b[22] == "jpg"@);
                }
                if k == 23 {
                    assert(b[23] == "jpeg"@);
                }
                if k == 24 {
                    assert(b[24] == "gif"@);
                }
                if k == 25 {
                    assert(b[25] == "bmp"@);
                }
                if k == 26 {
                    assert(b[26] == "ico"@);
                }
                if k == 27 {
                    assert(b[27] == "webp"@);
                }
                if k == 28 {
                    assert(b[28] == "tif"@);
                }
                if k == 29 {
                    assert(b[29] == "tiff"@);
                }
                if k == 30 {
                    assert(b[30] == "emf"@);
                }
                if k == 31 {
                    assert(b[31] == "wmf"@);
                }
                if k == 32 {
                    assert(b[32] == "heic"@);
                }
                if k == 33 {
                    assert(b[33] == "psd"@);
                }
                if k == 34 {
                    assert(b[34] == "ttf"@);
                }
                if k == 35 {
                    assert(b[35] == "otf"@);
                }
                if k == 36 {
                    assert(b[36] == "woff"@);
                }
                if k == 37 {
                    assert(b[37] == "woff2"@);
                }
                if k == 38 {
                    assert(b[38] == "eot"@);
                }
                if k == 39 {
                    assert(b[39] == "mp3"@);
                }
                if k == 40 {
                    assert(b[40] == "wav"@);
                }
                if k == 41 {
                    assert(b[41] == "ogg"@);
                }
                if k == 42 {
                    assert(b[42] == "flac"@);
                }
                if k == 43 {
                    assert(b[43] == "mp4"@);
                }
                if k == 44 {
                    assert(b[44] == "avi"@);
                }
                if k == 45 {
                    assert(b[45] == "mov"@);
                }
                if k == 46 {
                    assert(b[46] == "mkv"@);
                }
                if k == 47 {
                    assert(b[47] == "wmv"@);
                }
                if k == 48 {
                    assert(b[48] == "flv"@);
                }
                if k == 49 {
                    assert(b[49] == "zip"@);
                }
                if k == 50 {
                    assert(b[50] == "rar"@);
                }
                if k == 51 {
                    assert(b[51] == "7z"@);
                }
                if k == 52 {
                    assert(b[52] == "tar"@);
                }
                if k == 53 {
                    assert(b[53] == "gz"@);
                }
                if k == 54 {
                    assert(b[54] == "bz2"@);
                }
                if k == 55 {
                    assert(b[55] == "xz"@);
                }
                if k == 56 {
                    assert(b[56] == "iso"@);
                }
                if k == 57 {
                    assert(b[57] == "exe"@);
                }
                if k == 58 {
                    assert(b[58] == "msi"@);
                }
                if k == 59 {
                    assert(b[59] == "dll"@);
                }
                if k == 60 {
                    assert(b[60] == "so"@);
                }
                if k == 61 {
                    assert(b[61] == "dylib"@);
                }
                if k == 62 {
                    assert(b[62] == "class"@);
                }
                if k == 63 {
                    assert(b[63] == "jar"@);
                }
                if k == 64 {
                    assert(b[64] == "node"@);
                }
                if k == 65 {
                    assert(b[65] == "pyc"@);
                }
                if k == 66 {
                    assert(b[66] == "o"@);
                }
                if k == 67 {
                    assert(b[67] == "obj"@);
                }
                if k == 68 {
                    assert(b[68] == "lib"@);
                }
                if k == 69 {
                    assert(b[69] == "wasm"@);
                }
                if k == 70 {
                    assert(b[70] == "db"@);
                }
                if k == 71 {
                    assert(b[71] == "sqlite"@);
                }
                if k == 72 {
                    assert(b[72] == "sqlite3"@);
                }
                if k == 73 {
                    assert(b[73] == "dat"@);
                }
                if k == 74 {
                    assert(b[74] == "bin"@);
                }
                if k == 75 {
                    assert(b[75] == "pdb"@);
                }
                if k == 76 {
                    assert(b[76] == "drawio"@);
                }
            }
        }
    } else if x == "sh"@ {
        assert(l[42] == x);
        assert(x[0] == 's' && x[1] == 'h');
        assert(!b.contains(x)) by {
            if b.contains(x) {
                let k = choose|k: int| 0 <= k < b.len() && b[k] == x;
                if k == 0 {
                    assert(b[0] == "doc"@);
                }
                if k == 1 {
                    assert(b[1] == "docx"@);
                }
                if k == 2 {
                    assert(b[2] == "dot"@);
                }
                if k == 3 {
                    assert(b[3] == "dotx"@);
                }
                if k == 4 {
                    assert(b[4] == "docm"@);
                }
                if k == 5 {
                    assert(b[5] == "xls"@);
                }
                if k == 6 {
                    assert(b[6] == "xlsx"@);
                }
                if k == 7 {
                    assert(b[7] == "xlsm"@);
                }
                if k == 8 {
                    assert(b[8] == "xlsb"@);
                }
                if k == 9 {
                    assert(b[9] == "ppt"@);
                }
                if k == 10 {
                    assert(b[10] == "pptx"@);
                }
                if k == 11 {
                    assert(b[11] == "pps"@);
                }
                if k == 12 {
                    assert(b[12] == "ppsx"@);
                }
                if k == 13 {
                    assert(b[13] == "pdf"@);
                }
                if k == 14 {
                    assert(b[14] == "rtf"@);
                }
                if k == 15 {
                    assert(b[15] == "odt"@);
                }
                if k == 16 {
                    assert(b[16] == "ods"@);
                }
                if k == 17 {
                    assert(b[17] == "odp"@);
                }
                if k == 18 {
                    assert(b[18] == "wps"@);
                }
                if k == 19 {
                    assert(b[19] == "et"@);
                }
                if k == 20 {
                    assert(b[20] == "dps"@);
                }
                if k == 21 {
                    assert(b[21] == "png"@);
                }
                if k == 22 {
                    assert(b[22] == "jpg"@);
                }
                if k == 23 {
                    assert(b[23] == "jpeg"@);
                }
                if k == 24 {
                    assert(b[24] == "gif"@);
                }
                if k == 25 {
                    assert(b[25] == "bmp"@);
                }
                if k == 26 {
                    assert(b[26] == "ico"@);
                }
                if k == 27 {
                    assert(b[27] == "webp"@);
                }
                if k == 28 {
                    assert(b[28] == "tif"@);
                }
                if k == 29 {
                    assert(b[29] == "tiff"@);
                }
                if k == 30 {
                    assert(b[30] == "emf"@);
                }
                if k == 31 {
                    assert(b[31] == "wmf"@);
                }
                if k == 32 {
                    assert(b[32] == "heic"@);
                }
                if k == 33 {
                    assert(b[33] == "psd"@);
                }
                if k == 34 {
                    assert(b[34] == "ttf"@);
                }
                if k == 35 {
                    assert(b[35] == "otf"@);
                }
                if k == 36 {
                    assert(b[36] == "woff"@);
                }
                if k == 37 {
                    assert(b[37] == "woff2"@);
                }
                if k == 38 {
                    assert(b[38] == "eot"@);
                }
                if k == 39 {
                    assert(b[39] == "mp3"@);
                }
                if k == 40 {
                    assert(b[40] == "wav"@);
                }
                if k == 41 {
                    assert(b[41] == "ogg"@);
                }
                if k == 42 {
                    assert(b[42] == "flac"@);
                }
                if k == 43 {
                    assert(b[43] == "mp4"@);
                }
                if k == 44 {
                    assert(b[44] == "avi"@);
                }
                if k == 45 {
                    assert(b[45] == "mov"@);
                }
                if k == 46 {
                    assert(b[46] == "mkv"@);
                }
                if k == 47 {
                    assert(b[47] == "wmv"@);
                }
                if k == 48 {
                    assert(b[48] == "flv"@);
                }
                if k == 49 {
                    assert(b[49] == "zip"@);
                }
                if k == 50 {
                    assert(b[50] == "rar"@);
                }
                if k == 51 {
                    assert(b[51] == "7z"@);
                }
                if k == 52 {
                    assert(b[52] == "tar"@);
                }
                if k == 53 {
                    assert(b[53] == "gz"@);
                }
                if k == 54 {
                    assert(b[54] == "bz2"@);
                }
                if k == 55 {
                    assert(b[55] == "xz"@);
                }
                if k == 56 {
                    assert(b[56] == "iso"@);
                }
                if k == 57 {
                    assert(b[57] == "exe"@);
                }
                if k == 58 {
                    assert(b[58] == "msi"@);
                }
                if k == 59 {
                    assert(b[59] == "dll"@);
                }
                if k == 60 {
                    assert(b[60] == "so"@);
                }
                if k == 61 {
                    assert(b[61] == "dylib"@);
                }
                if k == 62 {
                    assert(b[62] == "class"@);
                }
                if k == 63 {
                    assert(b[63] == "jar"@);
                }
                if k == 64 {
                    assert(b[64] == "node"@);
                }
                if k == 65 {
                    assert(b[65] == "pyc"@);
                }
                if k == 66 {
                    assert(b[66] == "o"@);
                }
                if k == 67 {
                    assert(b[67] == "obj"@);
                }
                if k == 68 {
                    assert(b[68] == "lib"@);
                }
                if k == 69 {
                    assert(b[69] == "wasm"@);
                }
                if k == 70 {
                    assert(b[70] == "db"@);
                }
                if k == 71 {
                    assert(b[71] == "sqlite"@);
                }
                if k == 72 {
                    assert(b[72] == "sqlite3"@);
                }
                if k == 73 {
                    assert(b[73] == "dat"@);
                }
                if k == 74 {
                    assert(b[74] == "bin"@);
                }
                if k == 75 {
                    assert(b[75] == "pdb"@);
                }
                if k == 76 {
                    assert(b[76] == "drawio"@);
                }
            }
        }
    } else if x == "bat"@ {
        assert(l[43] == x);
        assert(x[0] == 'b' && x[1] == 'a' && x[2] == 't');
        assert(!b.contains(x)) by {
            if b.contains(x) {
                let k = choose|k: int| 0 <= k < b.len() && b[k] == x;
                if k == 0 {
                    assert(b[0] == "doc"@);
                }
                if k == 1 {
                    assert(b[1] == "docx"@);
                }
                if k == 2 {
                    assert(b[2] == "dot"@);
                }
                if k == 3 {
                    assert(b[3] == "dotx"@);
                }
                if k == 4 {
                    assert(b[4] == "docm"@);
                }
                if k == 5 {
                    assert(b[5] == "xls"@);
                }
                if k == 6 {
                    assert(b[6] == "xlsx"@);
                }
                if k == 7 {
                    assert(b[7] == "xlsm"@);
                }
                if k == 8 {
                    assert(b[8] == "xlsb"@);
                }
                if k == 9 {
                    assert(b[9] == "ppt"@);
                }
                if k == 10 {
                    assert(b[10] == "pptx"@);
                }
                if k == 11 {
                    assert(b[11] == "pps"@);
                }
                if k == 12 {
                    assert(b[12] == "ppsx"@);
                }
                if k == 13 {
                    assert(b[13] == "pdf"@);
                }
                if k == 14 {
                    assert(b[14] == "rtf"@);
                }
                if k == 15 {
                    assert(b[15] == "odt"@);
                }
                if k == 16 {
                    assert(b[16] == "ods"@);
                }
                if k == 17 {
                    assert(b[17] == "odp"@);
                }
                if k == 18 {
                    assert(b[18] == "wps"@);
                }
                if k == 19 {
                    assert(b[19] == "et"@);
                }
                if k == 20 {
                    assert(b[20] == "dps"@);
                }
                if k == 21 {
                    assert(b[21] == "png"@);
                }
                if k == 22 {
                    assert(b[22] == "jpg"@);
                }
                if k == 23 {
                    assert(b[23] == "jpeg"@);
                }
                if k == 24 {
                    assert(b[24] == "gif"@);
                }
                if k == 25 {
                    assert(b[25] == "bmp"@);
                }
                if k == 26 {
                    assert(b[26] == "ico"@);
                }
                if k == 27 {
                    assert(b[27] == "webp"@);
                }
                if k == 28 {
                    assert(b[28] == "tif"@);
                }
                if k == 29 {
                    assert(b[29] == "tiff"@);
                }
                if k == 30 {
                    assert(b[30] == "emf"@);
                }
                if k == 31 {
                    assert(b[31] == "wmf"@);
                }
                if k == 32 {
                    assert(b[32] == "heic"@);
                }
                if k == 33 {
                    assert(b[33] == "psd"@);
                }
                if k == 34 {
                    assert(b[34] == "ttf"@);
                }
                if k == 35 {
                    assert(b[35] == "otf"@);
                }
                if k == 36 {
                    assert(b[36] == "woff"@);
                }
                if k == 37 {
                    assert(b[37] == "woff2"@);
                }
                if k == 38 {
                    assert(b[38] == "eot"@);
                }
                if k == 39 {
                    assert(b[39] == "mp3"@);
                }
                if k == 40 {
                    assert(b[40] == "wav"@);
                }
                if k == 41 {
                    assert(b[41] == "ogg"@);
                }
                if k == 42 {
                    assert(b[42] == "flac"@);
                }
                if k == 43 {
                    assert(b[43] == "mp4"@);
                }
                if k == 44 {
                    assert(b[44] == "avi"@);
                }
                if k == 45 {
                    assert(b[45] == "mov"@);
                }
                if k == 46 {
                    assert(b[46] == "mkv"@);
                }
                if k == 47 {
                    assert(b[47] == "wmv"@);
                }
                if k == 48 {
                    assert(b[48] == "flv"@);
                }
                if k == 49 {
                    assert(b[49] == "zip"@);
                }
                if k == 50 {
                    assert(b[50] == "rar"@);
                }
                if k == 51 {
                    assert(b[51] == "7z"@);
                }
                if k == 52 {
                    assert(b[52] == "tar"@);
                }
                if k == 53 {
                    assert(b[53] == "gz"@);
                }
                if k == 54 {
                    assert(b[54] == "bz2"@);
                }
                if k == 55 {
                    assert(b[55] == "xz"@);
                }
                if k == 56 {
                    assert(b[56] == "iso"@);
                }
                if k == 57 {
                    assert(b[57] == "exe"@);
                }
                if k == 58 {
                    assert(b[58] == "msi"@);
                }
                if k == 59 {
                    assert(b[59] == "dll"@);
                }
                if k == 60 {
                    assert(b[60] == "so"@);
                }
                if k == 61 {
                    assert(b[61] == "dylib"@);
                }
                if k == 62 {
                    assert(b[62] == "class"@);
                }
                if k == 63 {
                    assert(b[63] == "jar"@);
                }
                if k == 64 {
                    assert(b[64] == "node"@);
                }
                if k == 65 {
                    assert(b[65] == "pyc"@);
                }
                if k == 66 {
                    assert(b[66] == "o"@);
                }
                if k == 67 {
                    assert(b[67] == "obj"@);
                }
                if k == 68 {
                    assert(b[68] == "lib"@);
                }
                if k == 69 {
                    assert(b[69] == "wasm"@);
                }
                if k == 70 {
                    assert(b[70] == "db"@);
                }
                if k == 71 {
                    assert(b[71] == "sqlite"@);
                }
                if k == 72 {
                    assert(b[72] == "sqlite3"@);
                }
                if k == 73 {
                    assert(b[73] == "dat"@);
                }
                if k == 74 {
                    assert(b[74] == "bin"@);
                }
                if k == 75 {
                    assert(b[75] == "pdb"@);
                }
                if k == 76 {
                    assert(b[76] == "drawio"@);
                }
            }
        }
    } else if x == "ps1"@ {
        assert(l[44] == x);
        assert(x[0] == 'p' && x[1] == 's' && x[2] == '1');
        assert(!b.contains(x)) by {
            if b.contains(x) {
                let k = choose|k: int| 0 <= k < b.len() && b[k] == x;
                if k == 0 {
                    assert(b[0] == "doc"@);
                }
                if k == 1 {
                    assert(b[1] == "docx"@);
                }
                if k == 2 {
                    assert(b[2] == "dot"@);
                }
                if k == 3 {
                    assert(b[3] == "dotx"@);
                }
                if k == 4 {
                    assert(b[4] == "docm"@);
                }
                if k == 5 {
                    assert(b[5] == "xls"@);
                }
                if k == 6 {
                    assert(b[6] == "xlsx"@);
                }
                if k == 7 {
                    assert(b[7] == "xlsm"@);
                }
                if k == 8 {
                    assert(b[8] == "xlsb"@);
                }
                if k == 9 {
                    assert(b[9] == "ppt"@);
                }
                if k == 10 {
                    assert(b[10] == "pptx"@);
                }
                if k == 11 {
                    assert(b[11] == "pps"@);
                }
                if k == 12 {
                    assert(b[12] == "ppsx"@);
                }
                if k == 13 {
                    assert(b[13] == "pdf"@);
                }
                if k == 14 {
                    assert(b[14] == "rtf"@);
                }
                if k == 15 {
                    assert(b[15] == "odt"@);
                }
                if k == 16 {
                    assert(b[16] == "ods"@);
                }
                if k == 17 {
                    assert(b[17] == "odp"@);
                }
                if k == 18 {
                    assert(b[18] == "wps"@);
                }
                if k == 19 {
                    assert(b[19] == "et"@);
                }
                if k == 20 {
                    assert(b[20] == "dps"@);
                }
                if k == 21 {
                    assert(b[21] == "png"@);
                }
                if k == 22 {
                    assert(b[22] == "jpg"@);
                }
                if k == 23 {
                    assert(b[23] == "jpeg"@);
                }
                if k == 24 {
                    assert(b[24] == "gif"@);
                }
                if k == 25 {
                    assert(b[25] == "bmp"@);
                }
                if k == 26 {
                    assert(b[26] == "ico"@);
                }
                if k == 27 {
                    assert(b[27] == "webp"@);
                }
                if k == 28 {
                    assert(b[28] == "tif"@);
                }
                if k == 29 {
                    assert(b[29] == "tiff"@);
                }
                if k == 30 {
                    assert(b[30] == "emf"@);
                }
                if k == 31 {
                    assert(b[31] == "wmf"@);
                }
                if k == 32 {
                    assert(b[32] == "heic"@);
                }
                if k == 33 {
                    assert(b[33] == "psd"@);
                }
                if k == 34 {
                    assert(b[34] == "ttf"@);
                }
                if k == 35 {
                    assert(b[35] == "otf"@);
                }
                if k == 36 {
                    assert(b[36] == "woff"@);
                }
                if k == 37 {
                    assert(b[37] == "woff2"@);
                }
                if k == 38 {
                    assert(b[38] == "eot"@);
                }
                if k == 39 {
                    assert(b[39] == "mp3"@);
                }
                if k == 40 {
                    assert(b[40] == "wav"@);
                }
                if k == 41 {
                    assert(b[41] == "ogg"@);
                }
                if k == 42 {
                    assert(b[42] == "flac"@);
                }
                if k == 43 {
                    assert(b[43] == "mp4"@);
                }
                if k == 44 {
                    assert(b[44] == "avi"@);
                }
                if k == 45 {
                    assert(b[45] == "mov"@);
                }
                if k == 46 {
                    assert(b[46] == "mkv"@);
                }
                if k == 47 {
                    assert(b[47] == "wmv"@);
                }
                if k == 48 {
                    assert(b[48] == "flv"@);
                }
                if k == 49 {
                    assert(b[49] == "zip"@);
                }
                if k == 50 {
                    assert(b[50] == "rar"@);
                }
                if k == 51 {
                    assert(b[51] == "7z"@);
                }
                if k == 52 {
                    assert(b[52] == "tar"@);
                }
                if k == 53 {
                    assert(b[53] == "gz"@);
                }
                if k == 54 {
                    assert(b[54] == "bz2"@);
                }
                if k == 55 {
                    assert(b[55] == "xz"@);
                }
                if k == 56 {
                    assert(b[56] == "iso"@);
                }
                if k == 57 {
                    assert(b[57] == "exe"@);
                }
                if k == 58 {
                    assert(b[58] == "msi"@);
                }
                if k == 59 {
                    assert(b[59] == "dll"@);
                }
                if k == 60 {
                    assert(b[60] == "so"@);
                }
                if k == 61 {
                    assert(b[61] == "dylib"@);
                }
                if k == 62 {
                    assert(b[62] == "class"@);
                }
                if k == 63 {
                    assert(b[63] == "jar"@);
                }
                if k == 64 {
                    assert(b[64] == "node"@);
                }
                if k == 65 {
                    assert(b[65] == "pyc"@);
                }
                if k == 66 {
                    assert(b[66] == "o"@);
                }
                if k == 67 {
                    assert(b[67] == "obj"@);
                }
                if k == 68 {
                    assert(b[68] == "lib"@);
                }
                if k == 69 {
                    assert(b[69] == "wasm"@);
                }
                if k == 70 {
                    assert(b[70] == "db"@);
                }
                if k == 71 {
                    assert(b[71] == "sqlite"@);
                }
                if k == 72 {
                    assert(b[72] == "sqlite3"@);
                }
                if k == 73 {
                    assert(b[73] == "dat"@);
                }
                if k == 74 {
                    assert(b[74] == "bin"@);
                }
                if k == 75 {
                    assert(b[75] == "pdb"@);
                }
                if k == 76 {
                    assert(b[76] == "drawio"@);
                }
            }
        }
    } else if x == "gitignore"@ {
        assert(l[45] == x);
        assert(x[0] == 'g' && x[1] == 'i' && x[2] == 't' && x[3] == 'i' && x[4] == 'g' && x[5] == 'n' && x[6] == 'o' && x[7] == 'r' && x[8] == 'e');
        assert(!b.contains(x)) by {
            if b.contains(x) {
                let k = choose|k: int| 0 <= k < b.len() && b[k] == x;
                if k == 0 {
                    assert(b[0] == "doc"@);
                }
                if k == 1 {
                    assert(b[1] == "docx"@);
                }
                if k == 2 {
                    assert(b[2] == "dot"@);
                }
                if k == 3 {
                    assert(b[3] == "dotx"@);
                }
                if k == 4 {
                    assert(b[4] == "docm"@);
                }
                if k == 5 {
                    assert(b[5] == "xls"@);
                }
                if k == 6 {
                    assert(b[6] == "xlsx"@);
                }
                if k == 7 {
                    assert(b[7] == "xlsm"@);
                }
                if k == 8 {
                    assert(b[8] == "xlsb"@);
                }
                if k == 9 {
                    assert(b[9] == "ppt"@);
                }
                if k == 10 {
                    assert(b[10] == "pptx"@);
                }
                if k == 11 {
                    assert(b[11] == "pps"@);
                }
                if k == 12 {
                    assert(b[12] == "ppsx"@);
                }
                if k == 13 {
                    assert(b[13] == "pdf"@);
                }
                if k == 14 {
                    assert(b[14] == "rtf"@);
                }
                if k == 15 {
                    assert(b[15] == "odt"@);
                }
                if k == 16 {
                    assert(b[16] == "ods"@);
                }
                if k == 17 {
                    assert(b[17] == "odp"@);
                }
                if k == 18 {
                    assert(b[18] == "wps"@);
                }
                if k == 19 {
                    assert(b[19] == "et"@);
                }
                if k == 20 {
                    assert(b[20] == "dps"@);
                }
                if k == 21 {
                    assert(b[21] == "png"@);
                }
                if k == 22 {
                    assert(b[22] == "jpg"@);
                }
                if k == 23 {
                    assert(b[23] == "jpeg"@);
                }
                if k == 24 {
                    assert(b[24] == "gif"@);
                }
                if k == 25 {
                    assert(b[25] == "bmp"@);
                }
                if k == 26 {
                    assert(b[26] == "ico"@);
                }
                if k == 27 {
                    assert(b[27] == "webp"@);
                }
                if k == 28 {
                    assert(b[28] == "tif"@);
                }
                if k == 29 {
                    assert(b[29] == "tiff"@);
                }
                if k == 30 {
                    assert(b[30] == "emf"@);
                }
                if k == 31 {
                    assert(b[31] == "wmf"@);
                }
                if k == 32 {
                    assert(b[32] == "heic"@);
                }
                if k == 33 {
                    assert(b[33] == "psd"@);
                }
                if k == 34 {
                    assert(b[34] == "ttf"@);
                }
                if k == 35 {
                    assert(b[35] == "otf"@);
                }
                if k == 36 {
                    assert(b[36] == "woff"@);
                }
                if k == 37 {
                    assert(b[37] == "woff2"@);
                }
                if k == 38 {
                    assert(b[38] == "eot"@);
                }
                if k == 39 {
                    assert(b[39] == "mp3"@);
                }
                if k == 40 {
                    assert(b[40] == "wav"@);
                }
                if k == 41 {
                    assert(b[41] == "ogg"@);
                }
                if k == 42 {
                    assert(b[42] == "flac"@);
                }
                if k == 43 {
                    assert(b[43] == "mp4"@);
                }
                if k == 44 {
                    assert(b[44] == "avi"@);
                }
                if k == 45 {
                    assert(b[45] == "mov"@);
                }
                if k == 46 {
                    assert(b[46] == "mkv"@);
                }
                if k == 47 {
                    assert(b[47] == "wmv"@);
                }
                if k == 48 {
                    assert(b[48] == "flv"@);
                }
                if k == 49 {
                    assert(b[49] == "zip"@);
                }
                if k == 50 {
                    assert(b[50] == "rar"@);
                }
                if k == 51 {
                    assert(b[51] == "7z"@);
                }
                if k == 52 {
                    assert(b[52] == "tar"@);
                }
                if k == 53 {
                    assert(b[53] == "gz"@);
                }
                if k == 54 {
                    assert(b[54] == "bz2"@);
                }
                if k == 55 {
                    assert(b[55] == "xz"@);
                }
                if k == 56 {
                    assert(b[56] == "iso"@);
                }
                if k == 57 {
                    assert(b[57] == "exe"@);
                }
                if k == 58 {
                    assert(b[58] == "msi"@);
                }
                if k == 59 {
                    assert(b[59] == "dll"@);
                }
                if k == 60 {
                    assert(b[60] == "so"@);
                }
                if k == 61 {
                    assert(b[61] == "dylib"@);
                }
                if k == 62 {
                    assert(b[62] == "class"@);
                }
                if k == 63 {
                    assert(b[63] == "jar"@);
                }
                if k == 64 {
                    assert(b[64] == "node"@);
                }
                if k == 65 {
                    assert(b[65] == "pyc"@);
                }
                if k == 66 {
                    assert(b[66] == "o"@);
                }
                if k == 67 {
                    assert(b[67] == "obj"@);
                }
                if k == 68 {
                    assert(b[68] == "lib"@);
                }
                if k == 69 {
                    assert(b[69] == "wasm"@);
                }
                if k == 70 {
                    assert(b[70] == "db"@);
                }
                if k == 71 {
                    assert(b[71] == "sqlite"@);
                }
                if k == 72 {
                    assert(b[72] == "sqlite3"@);
                }
                if k == 73 {
                    assert(b[73] == "dat"@);
                }
                if k == 74 {
                    assert(b[74] == "bin"@);
                }
                if k == 75 {
                    assert(b[75] == "pdb"@);
                }
                if k == 76 {
                    assert(b[76] == "drawio"@);
                }
            }
        }
    }
}

/// A regular file within the size limit with no extension whose name (any
/// letter case) is `makefile`, `dockerfile`, `license`, `readme`,
/// `changelog`, `authors` or `copying` opens as text.
pub proof fn lemma_text_names_open_as_text(path: Seq<char>, len: u64)
    requires
        len <= MAX_TEXT_BYTES,
        extension(path) is None,
        file_name(path) is Some,
        lowercase(file_name(path)->0) == "makefile"@ || lowercase(file_name(path)->0) == "dockerfile"@ ||
            lowercase(file_name(path)->0) == "license"@ || lowercase(file_name(path)->0) == "readme"@ ||
            lowercase(file_name(path)->0) == "changelog"@ || lowercase(file_name(path)->0) == "authors"@ ||
            lowercase(file_name(path)->0) == "copying"@,
    ensures
        text_decision_spec(path, true, len) == TextDecision::Text,
{
    let x = lowercase(file_name(path)->0);
    let l = text_names();
    if x == "makefile"@ {
        assert(l[0] == x);
    } else if x == "dockerfile"@ {
        assert(l[1] == x);
    } else if x == "license"@ {
        assert(l[2] == x);
    } else if x == "readme"@ {
        assert(l[3] == x);
    } else if x == "changelog"@ {
        assert(l[4] == x);
    } else if x == "authors"@ {
        assert(l[5] == x);
    } else if x == "copying"@ {
        assert(l[6] == x);
    }
}

/// Word documents (`docx`) open in the in-app Word preview and Excel
/// workbooks (`xlsx`, `xlsm`) in the in-app workbook preview, in any letter
/// case.
pub proof fn lemma_office_previewed(path: Seq<char>)
    requires
        extension(path) is Some,
    ensures
        lowercase(extension(path)->0) == "docx"@ ==> preview_kind_spec(path) == Some("docx"@),
        lowercase(extension(path)->0) == "xlsx"@ || lowercase(extension(path)->0) == "xlsm"@ ==> preview_kind_spec(path)
            == Some("xlsx"@),
{
    reveal_strlit("docx");
    reveal_strlit("xlsx");
    reveal_strlit("xlsm");
    let x = lowercase(extension(path)->0);
    if x == "xlsx"@ || x == "xlsm"@ {
        assert(x[0] == 'x');
        assert(x != "docx"@);
    }
}

/// The content sniff on the first bytes of a file: empty → text (an empty
/// document); a byte order mark → text; a NUL byte → not text; valid UTF-8
/// → text; otherwise text only when `chardetng` guesses an encoding other
/// than UTF-8 that decodes the bytes without any replacement.
pub open spec fn sniff_spec(b: Seq<u8>) -> bool {
    if b.len() == 0 {
        true
    } else if starts_bytes(b, utf8_bom()) || starts_bytes(b, seq![0xFFu8, 0xFEu8]) || starts_bytes(b, seq![0xFEu8, 0xFFu8]) {
        true
    } else if b.contains(0u8) {
        false
    } else if valid_utf8(b) {
        true
    } else if chardet_guess(b, false) == "UTF-8"@ {
        false
    } else {
        match label_decode(chardet_guess(b, false), b) {
            Some((t, malformed)) => !malformed && !t.contains('\u{FFFD}'),
            None => false,
        }
    }
}

/// Whether the first bytes of a file look like text (see [`sniff_spec`]).
pub fn sniff_is_text(buf: &[u8]) -> (r: bool)
    ensures
        r == sniff_spec(buf@),
{
    if buf.len() == 0 {
        return true;
    }
    if starts_with_bom(buf) || starts_with_bytes(buf, 0xFF, 0xFE) || starts_with_bytes(buf, 0xFE, 0xFF) {
        return true;
    }
    let mut i: usize = 0;
    while i < buf.len()
        invariant
            i <= buf@.len(),
            buf@.len() > 0,
            !starts_bytes(buf@, utf8_bom()),
            !starts_bytes(buf@, seq![0xFFu8, 0xFEu8]),
            !starts_bytes(buf@, seq![0xFEu8, 0xFFu8]),
            forall|k: int| 0 <= k < i ==> buf@[k] != 0u8,
        decreases buf@.len() - i,
    {
        if buf[i] == 0 {
            assert(buf@.contains(0u8));
            return false;
        }
        i = i + 1;
    }
    if str_from_utf8(buf).is_some() {
        return true;
    }
    let name = guess_encoding(buf, false);
    let nv = str_chars(name.as_str());
    let utf8 = str_chars("UTF-8");
    if chars_eq(nv.as_slice(), utf8.as_slice()) {
        return false;
    }
    match decode_by_label(name.as_str(), buf) {
        Some((t, malformed)) => {
            let tv = str_chars(t.as_str());
            !malformed && !crate::text::chars_contains(tv.as_slice(), '\u{FFFD}')
        },
        None => false,
    }
}

/// What can be previewed inside the application, by extension (lower
/// case): Word documents, Excel workbooks and images a WebView decodes.
pub open spec fn preview_kind_spec(path: Seq<char>) -> Option<Seq<char>> {
    match extension(path) {
        None => None,
        Some(e) => {
            let x = lowercase(e);
            if x == "docx"@ {
                Some("docx"@)
            } else if x == "xlsx"@ || x == "xlsm"@ {
                Some("xlsx"@)
            } else if lits(seq!["png", "jpg", "jpeg", "gif", "bmp", "webp", "svg", "ico"]).contains(x) {
                Some("image"@)
            } else {
                None
            }
        },
    }
}

/// Images in the formats a WebView shows (`png`, `jpg`, `jpeg`, `gif`,
/// `bmp`, `webp`, `svg`, `ico`, in any letter case) open in the in-app
/// image preview.
pub proof fn lemma_images_previewed(path: Seq<char>)
    requires
        extension(path) is Some,
        lowercase(extension(path)->0) == "png"@ || lowercase(extension(path)->0) == "jpg"@
            || lowercase(extension(path)->0) == "jpeg"@ || lowercase(extension(path)->0) == "gif"@
            || lowercase(extension(path)->0) == "bmp"@ || lowercase(extension(path)->0) == "webp"@
            || lowercase(extension(path)->0) == "svg"@ || lowercase(extension(path)->0) == "ico"@,
    ensures
        preview_kind_spec(path) == Some("image"@),
{
    reveal_strlit("docx");
    reveal_strlit("xlsx");
    reveal_strlit("xlsm");
    reveal_strlit("png");
    reveal_strlit("jpg");
    reveal_strlit("jpeg");
    reveal_strlit("gif");
    reveal_strlit("bmp");
    reveal_strlit("webp");
    reveal_strlit("svg");
    reveal_strlit("ico");
    let x = lowercase(extension(path)->0);
    let im = lits(seq!["png", "jpg", "jpeg", "gif", "bmp", "webp", "svg", "ico"]);
    if x == "png"@ {
        assert(im[0] == x);
    } else if x == "jpg"@ {
        assert(im[1] == x);
    } else if x == "jpeg"@ {
        assert(im[2] == x);
    } else if x == "gif"@ {
        assert(im[3] == x);
    } else if x == "bmp"@ {
        assert(im[4] == x);
    } else if x == "webp"@ {
        assert(im[5] == x);
    } else if x == "svg"@ {
        assert(im[6] == x);
    } else {
        assert(im[7] == x);
    }
    assert(x != "docx"@ && x != "xlsx"@ && x != "xlsm"@) by {
        if x == "docx"@ || x == "xlsx"@ || x == "xlsm"@ {
            assert(x.len() == 4 && x[3] != 'g' && x[3] != 'p');
        }
    }
}

/// The in-app preview kind of a file: "docx", "xlsx" or "image"; nothing
/// when it is not previewed (see [`preview_kind_spec`]). Reads nothing.
pub fn preview_kind(path: &str) -> (r: Option<&'static str>)
    ensures
        match r {
            Some(k) => preview_kind_spec(path@) == Some(k@),
            None => preview_kind_spec(path@) is None,
        },
{
    let e = match extension_of(path) {
        None => return None,
        Some(e) => e,
    };
    let es = string_from_chars(e.as_slice());
    let x = str_chars(str_to_lowercase(es.as_str()).as_str());
    let docx = vec!["docx"];
    let xlsx = vec!["xlsx", "xlsm"];
    let images = vec!["png", "jpg", "jpeg", "gif", "bmp", "webp", "svg", "ico"];
    proof {
        assert(tag_views(docx@) =~= seq!["docx"@]);
        assert(tag_views(xlsx@) =~= seq!["xlsx"@, "xlsm"@]);
        assert(tag_views(images@) =~= lits(seq!["png", "jpg", "jpeg", "gif", "bmp", "webp", "svg", "ico"]));
    }
    let ghost xv = x@;
    proof {
        if seq!["docx"@].contains(xv) {
            let m = choose|m: int| 0 <= m < 1 && seq!["docx"@][m] == xv;
            assert(xv == "docx"@);
        }
        if seq!["xlsx"@, "xlsm"@].contains(xv) {
            let m = choose|m: int| 0 <= m < 2 && seq!["xlsx"@, "xlsm"@][m] == xv;
            assert(xv == "xlsx"@ || xv == "xlsm"@);
        }
        if xv == "docx"@ {
            assert(seq!["docx"@][0] == xv);
        }
        if xv == "xlsx"@ {
            assert(seq!["xlsx"@, "xlsm"@][0] == xv);
        }
        if xv == "xlsm"@ {
            assert(seq!["xlsx"@, "xlsm"@][1] == xv);
        }
    }
    if listed(x.as_slice(), &docx) {
        Some("docx")
    } else if listed(x.as_slice(), &xlsx) {
        Some("xlsx")
    } else if listed(x.as_slice(), &images) {
        Some("image")
    } else {
        None
    }
}

/// The size gate of reading a file into the editor: files over
/// [`MAX_TEXT_BYTES`] are refused as `Unsupported`, naming both sizes.
pub fn check_text_size(len: u64) -> (r: Result<(), AppError>)
    ensures
        r is Ok <==> len <= MAX_TEXT_BYTES,
        r matches Err(e) ==> e matches AppError::Unsupported(m) && m@ == "文件过大（"@ + crate::num::decimal(len as nat)
            + " 字节，上限 "@ + crate::num::decimal(MAX_TEXT_BYTES as nat) + " 字节）：请用系统默认程序打开"@,
{
    if len <= MAX_TEXT_BYTES {
        return Ok(());
    }
    let a = string_from_chars(crate::num::decimal_chars(len as u128).as_slice());
    let b = string_from_chars(crate::num::decimal_chars(MAX_TEXT_BYTES as u128).as_slice());
    let m = String::from_str("文件过大（").concat(a.as_str()).concat(" 字节，上限 ").concat(b.as_str()).concat(
        " 字节）：请用系统默认程序打开",
    );
    Err(AppError::Unsupported(m))
}

} // verus!
