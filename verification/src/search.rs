//! Full-text search over a workspace: the query plan, which files take
//! part and how, and the scanning of one file's text into hits with line
//! and character columns.
//!
//! Walking the directory tree and reading files happen outside; this module
//! receives paths, sizes and contents.
use vstd::prelude::*;
use vstd::utf8::{decode_utf8, encode_utf8, valid_utf8};
use crate::error::AppError;
use crate::office::{cv, lits, tag_views, utf8_width};
use crate::paths::{comp_texts, components, dv, extension, extension_of, file_name, file_name_of, is_under, path_components};
use crate::text::{
    chars_ends_with, ends_with, lowercase, str_chars, str_to_lowercase, string_from_chars, trim,
    trim_bounds, trim_start, slice_range,
};
use crate::fs_service::listed;

verus! {

/// A search request.
pub struct SearchQuery {
    pub root: String,
    pub query: String,
    pub case_sensitive: bool,
    pub is_regex: bool,
    pub include_glob: Option<String>,
    pub max_results: Option<usize>,
}

/// One hit. `line` is 1-based; `column` is the 1-based character column of
/// the match in the shown line text; `match_start`/`match_end` are 0-based
/// character offsets in it.
pub struct SearchHit {
    pub path: String,
    pub rel_path: String,
    pub line: usize,
    pub column: usize,
    pub line_text: String,
    pub match_start: usize,
    pub match_end: usize,
}

#[verifier::external_type_specification]
#[verifier::external_body]
pub struct ExRegexMatcher(grep_regex::RegexMatcher);

/// What `grep_regex::RegexMatcherBuilder` (with `case_insensitive(ci)`)
/// does with `pattern`: it compiles, or fails with an error text.
pub uninterp spec fn regex_build(pattern: Seq<char>, ci: bool) -> Result<(), Seq<char>>;

/// What `Matcher::find_at` of the compiled pattern reports on `hay` from
/// byte `at`: the byte range of the first match.
pub uninterp spec fn regex_find_at(pattern: Seq<char>, ci: bool, hay: Seq<u8>, at: nat) -> Option<(nat, nat)>;

/// What a `grep_searcher::Searcher` with line numbers reports on `hay`: the
/// number and text (terminator included) of each line with a match.
pub uninterp spec fn grep_lines(pattern: Seq<char>, ci: bool, hay: Seq<u8>) -> Seq<(nat, Seq<char>)>;

/// Line numbers as the line searcher counts them: each at least 1, and each
/// greater than the one reported before it.
pub open spec fn numbered(lines: Seq<(nat, Seq<char>)>) -> bool {
    &&& forall|i: int| 0 <= i < lines.len() ==> #[trigger] lines[i].0 >= 1
    &&& forall|i: int, j: int| #![trigger lines[i], lines[j]] 0 <= i < j < lines.len() ==> lines[i].0 < lines[j].0
}

/// A compiled search pattern.
pub struct SearchMatcher {
    inner: grep_regex::RegexMatcher,
    pattern: String,
    case_insensitive: bool,
}

pub open spec fn range_view(p: (usize, usize)) -> (nat, nat) {
    (p.0 as nat, p.1 as nat)
}

pub open spec fn line_views(v: Seq<(u64, String)>) -> Seq<(nat, Seq<char>)> {
    v.map_values(|x: (u64, String)| (x.0 as nat, x.1@))
}

/// Records a line that the searcher reported.
pub fn push_line(out: &mut Vec<(u64, String)>, n: u64, line: &str)
    ensures
        line_views(final(out)@) == line_views(old(out)@).push((n as nat, line@)),
{
    let ghost o = line_views(out@);
    out.push((n, String::from_str(line)));
    assert(line_views(out@) =~= o.push((n as nat, line@)));
}

impl SearchMatcher {
    pub closed spec fn pattern(self) -> Seq<char> {
        self.pattern@
    }

    pub closed spec fn ci(self) -> bool {
        self.case_insensitive
    }

    /// `RegexMatcherBuilder::new().case_insensitive(ci).build(pattern)`.
    #[verifier::external_body]
    fn build(pattern: &str, case_insensitive: bool) -> (r: Result<SearchMatcher, String>)
        ensures
            r is Ok <==> regex_build(pattern@, case_insensitive) is Ok,
            r is Ok ==> r->Ok_0.pattern() == pattern@ && r->Ok_0.ci() == case_insensitive,
            r is Err ==> regex_build(pattern@, case_insensitive) == Err::<(), Seq<char>>(r->Err_0@),
    {
        match grep_regex::RegexMatcherBuilder::new().case_insensitive(case_insensitive).build(pattern) {
            Ok(inner) => Ok(SearchMatcher { inner, pattern: pattern.to_string(), case_insensitive }),
            Err(e) => Err(format!("{}", e)),
        }
    }

    /// `Matcher::find_at`: the first match in `hay` from byte `at`, as a
    /// byte range, which lies within `at..hay.len()`.
    #[verifier::external_body]
    fn find_at(&self, hay: &[u8], at: usize) -> (r: Option<(usize, usize)>)
        requires
            at <= hay@.len(),
        ensures
            r is Some <==> regex_find_at(self.pattern(), self.ci(), hay@, at as nat) is Some,
            r is Some ==> regex_find_at(self.pattern(), self.ci(), hay@, at as nat) == Some(range_view(r->0)),
            r is Some ==> at <= range_view(r->0).0 <= range_view(r->0).1 <= hay@.len(),
    {
        match grep_matcher::Matcher::find_at(&self.inner, hay, at) {
            Ok(Some(m)) => Some((m.start(), m.end())),
            _ => None,
        }
    }

    /// `Searcher::search_slice` with line numbers and a `UTF8` sink: the
    /// lines of `hay` that match, with their numbers.
    #[verifier::external_body]
    fn matching_lines(&self, hay: &[u8]) -> (r: Vec<(u64, String)>)
        ensures
            line_views(r@) == grep_lines(self.pattern(), self.ci(), hay@),
            numbered(line_views(r@)),
    {
        let mut out: Vec<(u64, String)> = Vec::new();
        let mut searcher = grep_searcher::SearcherBuilder::new().line_number(true).build();
        let _ = searcher.search_slice(&self.inner, hay, grep_searcher::sinks::UTF8(|n, line| {
            push_line(&mut out, n, line);
            Ok(true)
        }));
        out
    }
}

/// Characters that `regex::escape` escapes.
pub open spec fn is_meta(c: char) -> bool {
    c == '\\' || c == '.' || c == '+' || c == '*' || c == '?' || c == '(' || c == ')' || c == '|'
        || c == '[' || c == ']' || c == '{' || c == '}' || c == '^' || c == '$' || c == '#' || c == '&'
        || c == '-' || c == '~'
}

/// `regex::escape`: every meta character preceded by a backslash.
pub open spec fn escaped(s: Seq<char>) -> Seq<char>
    decreases s.len(),
{
    if s.len() == 0 {
        seq![]
    } else {
        escaped(s.drop_last()) + (if is_meta(s.last()) { seq!['\\', s.last()] } else { seq![s.last()] })
    }
}

/// `regex::escape`: the pattern that matches `s` literally.
#[verifier::external_body]
fn regex_escape(s: &str) -> (r: String)
    ensures
        r@ == escaped(s@),
{
    regex::escape(s)
}

/// How a file takes part in a search.
#[derive(Debug, Clone, Copy, PartialEq, Eq)]
pub enum FileKind {
    /// Plain text, read directly.
    Text,
    /// An Office document, searched through its extracted text.
    Office,
}

/// A validated search: the compiled pattern, the hit limit and the file
/// filter.
pub struct SearchPlan {
    pub matcher: SearchMatcher,
    pub max_results: usize,
    pub glob: Option<String>,
}

/// The pattern a query searches for: the query itself in regex mode, the
/// query escaped otherwise.
pub open spec fn query_pattern(q: SearchQuery) -> Seq<char> {
    if q.is_regex { q.query@ } else { escaped(q.query@) }
}

/// The hit limit: the one asked for (2000 when none), at least 1.
pub open spec fn max_results_of(q: Option<usize>) -> nat {
    match q {
        Some(m) => if m >= 1 { m as nat } else { 1 },
        None => 2000,
    }
}

/// Validates a query and compiles its pattern. `root_is_dir` tells whether
/// the search root is an existing directory. An empty query is an invalid
/// argument; a missing root is not found; a pattern that does not compile
/// is an invalid argument naming the compiler's error. The pattern is
/// case-insensitive unless the query asks otherwise.
pub fn plan_search(query: &SearchQuery, root_is_dir: bool) -> (r: Result<SearchPlan, AppError>)
    ensures
        query.query@.len() == 0 ==> (r matches Err(AppError::InvalidArg(m)) && m@ == "搜索词不能为空"@),
        query.query@.len() > 0 && !root_is_dir ==> (r matches Err(AppError::NotFound(m)) && m@ == "目录不存在: "@ + query.root@),
        query.query@.len() > 0 && root_is_dir ==> match regex_build(query_pattern(*query), !query.case_sensitive) {
            Ok(_) => r matches Ok(p) && p.matcher.pattern() == query_pattern(*query)
                && p.matcher.ci() == !query.case_sensitive
                && p.max_results as nat == max_results_of(query.max_results)
                && p.glob == query.include_glob,
            Err(e) => r matches Err(AppError::InvalidArg(m)) && m@ == "正则无效: "@ + e,
        },
{
    if query.query.as_str().is_empty() {
        return Err(AppError::InvalidArg(String::from_str("搜索词不能为空")));
    }
    if !root_is_dir {
        return Err(AppError::NotFound(String::from_str("目录不存在: ").concat(query.root.as_str())));
    }
    let pattern = if query.is_regex { query.query.clone() } else { regex_escape(query.query.as_str()) };
    let matcher = match SearchMatcher::build(pattern.as_str(), !query.case_sensitive) {
        Ok(m) => m,
        Err(e) => return Err(AppError::InvalidArg(String::from_str("正则无效: ").concat(e.as_str()))),
    };
    let max_results = match query.max_results {
        Some(m) => if m >= 1 { m } else { 1 },
        None => 2000,
    };
    let glob = match &query.include_glob {
        Some(g) => Some(g.clone()),
        None => None,
    };
    Ok(SearchPlan { matcher, max_results, glob })
}

/// Directory names a search never enters.
pub open spec fn excluded_dirs() -> Seq<Seq<char>> {
    lits(seq![".git", "node_modules"])
}

/// Extensions searched as plain text.
pub open spec fn search_text_exts() -> Seq<Seq<char>> {
    lits(seq![
        "md", "markdown", "txt", "text", "log", "csv", "json", "yaml", "yml", "toml", "ini", "conf",
        "xml", "html", "htm", "css", "js", "ts", "vue", "sql", "py", "sh", "bat", "ps1",
    ])
}

/// Extensions searched as Office documents (OOXML, then legacy OLE).
pub open spec fn office_exts() -> Seq<Seq<char>> {
    lits(seq!["docx", "xlsx", "pptx", "doc", "xls", "ppt"])
}

/// `*` characters removed from the front.
pub open spec fn strip_stars(s: Seq<char>) -> Seq<char>
    decreases s.len(),
{
    if s.len() > 0 && s[0] == '*' { strip_stars(s.drop_first()) } else { s }
}

/// Whether and how a file takes part in a search. With a name filter such
/// as `*.md`, a file whose name (lower case) ends with the filter's text
/// after its leading `*`s (lower case) is searched as text, any other file
/// not at all. Without a filter the extension (lower case) decides: Office
/// documents, then the plain text list; anything else is skipped.
pub open spec fn classify_spec(path: Seq<char>, glob: Option<Seq<char>>) -> Option<FileKind> {
    match glob {
        Some(g) => match file_name(path) {
            None => None,
            Some(n) => if ends_with(lowercase(n), lowercase(strip_stars(g))) { Some(FileKind::Text) } else { None },
        },
        None => match extension(path) {
            None => None,
            Some(e) => if office_exts().contains(lowercase(e)) {
                Some(FileKind::Office)
            } else if search_text_exts().contains(lowercase(e)) {
                Some(FileKind::Text)
            } else {
                None
            },
        },
    }
}

fn lower_chars(v: &[char]) -> (r: Vec<char>)
    ensures
        r@ == lowercase(v@),
{
    let s = string_from_chars(v);
    str_chars(str_to_lowercase(s.as_str()).as_str())
}

/// Whether and how a file takes part in a search (see [`classify_spec`]).
pub fn classify(path: &str, glob: Option<&str>) -> (r: Option<FileKind>)
    ensures
        r == classify_spec(path@, match glob { Some(g) => Some(g@), None => None }),
{
    match glob {
        Some(g) => {
            let gv = str_chars(g);
            let mut k: usize = 0;
            assert(gv@.skip(0) =~= gv@);
            while k < gv.len() && gv[k] == '*'
                invariant
                    k <= gv@.len(),
                    strip_stars(gv@) == strip_stars(gv@.skip(k as int)),
                decreases gv@.len() - k,
            {
                proof {
                    assert(gv@.skip(k as int)[0] == '*');
                    assert(gv@.skip(k as int).drop_first() =~= gv@.skip(k + 1));
                }
                k = k + 1;
            }
            proof {
                if k < gv@.len() {
                    assert(gv@.skip(k as int)[0] == gv@[k as int]);
                }
                assert(gv@.skip(k as int) =~= gv@.subrange(k as int, gv@.len() as int));
            }
            let suffix = lower_chars(slice_range(gv.as_slice(), k, gv.len()).as_slice());
            match file_name_of(path) {
                None => None,
                Some(n) => {
                    let ln = lower_chars(n.as_slice());
                    if chars_ends_with(ln.as_slice(), suffix.as_slice()) {
                        Some(FileKind::Text)
                    } else {
                        None
                    }
                },
            }
        },
        None => {
            let e = match extension_of(path) {
                None => return None,
                Some(e) => e,
            };
            let le = lower_chars(e.as_slice());
            let office = vec!["docx", "xlsx", "pptx", "doc", "xls", "ppt"];
            let texts = vec![
                "md", "markdown", "txt", "text", "log", "csv", "json", "yaml", "yml", "toml", "ini", "conf",
                "xml", "html", "htm", "css", "js", "ts", "vue", "sql", "py", "sh", "bat", "ps1",
            ];
            proof {
                assert(tag_views(office@) =~= office_exts());
                assert(tag_views(texts@) =~= search_text_exts());
            }
            if listed(le.as_slice(), &office) {
                Some(FileKind::Office)
            } else if listed(le.as_slice(), &texts) {
                Some(FileKind::Text)
            } else {
                None
            }
        },
    }
}

/// Without a name filter, Word, Excel and PowerPoint files, current and
/// legacy (`docx`, `xlsx`, `pptx`, `doc`, `xls`, `ppt`, in any letter
/// case), are searched through their extracted text.
pub proof fn lemma_office_files_searched(path: Seq<char>)
    requires
        extension(path) is Some,
        lowercase(extension(path)->0) == "docx"@ || lowercase(extension(path)->0) == "xlsx"@
            || lowercase(extension(path)->0) == "pptx"@ || lowercase(extension(path)->0) == "doc"@
            || lowercase(extension(path)->0) == "xls"@ || lowercase(extension(path)->0) == "ppt"@,
    ensures
        classify_spec(path, None) == Some(FileKind::Office),
{
    let x = lowercase(extension(path)->0);
    let o = office_exts();
    if x == "docx"@ {
        assert(o[0] == x);
    } else if x == "xlsx"@ {
        assert(o[1] == x);
    } else if x == "pptx"@ {
        assert(o[2] == x);
    } else if x == "doc"@ {
        assert(o[3] == x);
    } else if x == "xls"@ {
        assert(o[4] == x);
    } else {
        assert(o[5] == x);
    }
}

/// Without a name filter, Markdown, plain text, logs, data and
/// configuration files and source files (`md`, `markdown`, `txt`, `text`,
/// `log`, `csv`, `json`, `yaml`, `yml`, `toml`, `ini`, `conf`, `xml`,
/// `html`, `htm`, `css`, `js`, `ts`, `vue`, `sql`, `py`, `sh`, `bat`,
/// `ps1`, in any letter case) are searched as plain text.
#[verifier::rlimit(50)]
pub proof fn lemma_text_files_searched(path: Seq<char>)
    requires
        extension(path) is Some,
        lowercase(extension(path)->0) == "md"@ || lowercase(extension(path)->0) == "markdown"@ ||
            lowercase(extension(path)->0) == "txt"@ || lowercase(extension(path)->0) == "text"@ ||
            lowercase(extension(path)->0) == "log"@ || lowercase(extension(path)->0) == "csv"@ ||
            lowercase(extension(path)->0) == "json"@ || lowercase(extension(path)->0) == "yaml"@ ||
            lowercase(extension(path)->0) == "yml"@ || lowercase(extension(path)->0) == "toml"@ ||
            lowercase(extension(path)->0) == "ini"@ || lowercase(extension(path)->0) == "conf"@ ||
            lowercase(extension(path)->0) == "xml"@ || lowercase(extension(path)->0) == "html"@ ||
            lowercase(extension(path)->0) == "htm"@ || lowercase(extension(path)->0) == "css"@ ||
            lowercase(extension(path)->0) == "js"@ || lowercase(extension(path)->0) == "ts"@ ||
            lowercase(extension(path)->0) == "vue"@ || lowercase(extension(path)->0) == "sql"@ ||
            lowercase(extension(path)->0) == "py"@ || lowercase(extension(path)->0) == "sh"@ ||
            lowercase(extension(path)->0) == "bat"@ || lowercase(extension(path)->0) == "ps1"@,
    ensures
        classify_spec(path, None) == Some(FileKind::Text),
{
    reveal_strlit("docx");
    reveal_strlit("xlsx");
    reveal_strlit("pptx");
    reveal_strlit("doc");
    reveal_strlit("xls");
    reveal_strlit("ppt");
    reveal_strlit("md");
    reveal_strlit("markdown");
    reveal_strlit("txt");
    reveal_strlit("text");
    reveal_strlit("log");
    reveal_strlit("csv");
    reveal_strlit("json");
    reveal_strlit("yaml");
    reveal_strlit("yml");
    reveal_strlit("toml");
    reveal_strlit("ini");
    reveal_strlit("conf");
    reveal_strlit("xml");
    reveal_strlit("html");
    reveal_strlit("htm");
    reveal_strlit("css");
    reveal_strlit("js");
    reveal_strlit("ts");
    reveal_strlit("vue");
    reveal_strlit("sql");
    reveal_strlit("py");
    reveal_strlit("sh");
    reveal_strlit("bat");
    reveal_strlit("ps1");
    let x = lowercase(extension(path)->0);
    let o = office_exts();
    let t = search_text_exts();
    if x == "md"@ {
        assert(t[0] == x);
        assert(x[0] == 'm' && x[1] == 'd');
        assert(!o.contains(x)) by {
            if o.contains(x) {
                let k = choose|k: int| 0 <= k < o.len() && o[k] == x;
                if k == 0 {
                    assert(o[0] == "docx"@);
                }
                if k == 1 {
                    assert(o[1] == "xlsx"@);
                }
                if k == 2 {
                    assert(o[2] == "pptx"@);
                }
                if k == 3 {
                    assert(o[3] == "doc"@);
                }
                if k == 4 {
                    assert(o[4] == "xls"@);
                }
                if k == 5 {
                    assert(o[5] == "ppt"@);
                }
            }
        }
    } else if x == "markdown"@ {
        assert(t[1] == x);
        assert(x[0] == 'm' && x[1] == 'a' && x[2] == 'r' && x[3] == 'k' && x[4] == 'd' && x[5] == 'o' && x[6] == 'w' && x[7] == 'n');
        assert(!o.contains(x)) by {
            if o.contains(x) {
                let k = choose|k: int| 0 <= k < o.len() && o[k] == x;
                if k == 0 {
                    assert(o[0] == "docx"@);
                }
                if k == 1 {
                    assert(o[1] == "xlsx"@);
                }
                if k == 2 {
                    assert(o[2] == "pptx"@);
                }
                if k == 3 {
                    assert(o[3] == "doc"@);
                }
                if k == 4 {
                    assert(o[4] == "xls"@);
                }
                if k == 5 {
                    assert(o[5] == "ppt"@);
                }
            }
        }
    } else if x == "txt"@ {
        assert(t[2] == x);
        assert(x[0] == 't' && x[1] == 'x' && x[2] == 't');
        assert(!o.contains(x)) by {
            if o.contains(x) {
                let k = choose|k: int| 0 <= k < o.len() && o[k] == x;
                if k == 0 {
                    assert(o[0] == "docx"@);
                }
                if k == 1 {
                    assert(o[1] == "xlsx"@);
                }
                if k == 2 {
                    assert(o[2] == "pptx"@);
                }
                if k == 3 {
                    assert(o[3] == "doc"@);
                }
                if k == 4 {
                    assert(o[4] == "xls"@);
                }
                if k == 5 {
                    assert(o[5] == "ppt"@);
                }
            }
        }
    } else if x == "text"@ {
        assert(t[3] == x);
        assert(x[0] == 't' && x[1] == 'e' && x[2] == 'x' && x[3] == 't');
        assert(!o.contains(x)) by {
            if o.contains(x) {
                let k = choose|k: int| 0 <= k < o.len() && o[k] == x;
                if k == 0 {
                    assert(o[0] == "docx"@);
                }
                if k == 1 {
                    assert(o[1] == "xlsx"@);
                }
                if k == 2 {
                    assert(o[2] == "pptx"@);
                }
                if k == 3 {
                    assert(o[3] == "doc"@);
                }
                if k == 4 {
                    assert(o[4] == "xls"@);
                }
                if k == 5 {
                    assert(o[5] == "ppt"@);
                }
            }
        }
    } else if x == "log"@ {
        assert(t[4] == x);
        assert(x[0] == 'l' && x[1] == 'o' && x[2] == 'g');
        assert(!o.contains(x)) by {
            if o.contains(x) {
                let k = choose|k: int| 0 <= k < o.len() && o[k] == x;
                if k == 0 {
                    assert(o[0] == "docx"@);
                }
                if k == 1 {
                    assert(o[1] == "xlsx"@);
                }
                if k == 2 {
                    assert(o[2] == "pptx"@);
                }
                if k == 3 {
                    assert(o[3] == "doc"@);
                }
                if k == 4 {
                    assert(o[4] == "xls"@);
                }
                if k == 5 {
                    assert(o[5] == "ppt"@);
                }
            }
        }
    } else if x == "csv"@ {
        assert(t[5] == x);
        assert(x[0] == 'c' && x[1] == 's' && x[2] == 'v');
        assert(!o.contains(x)) by {
            if o.contains(x) {
                let k = choose|k: int| 0 <= k < o.len() && o[k] == x;
                if k == 0 {
                    assert(o[0] == "docx"@);
                }
                if k == 1 {
                    assert(o[1] == "xlsx"@);
                }
                if k == 2 {
                    assert(o[2] == "pptx"@);
                }
                if k == 3 {
                    assert(o[3] == "doc"@);
                }
                if k == 4 {
                    assert(o[4] == "xls"@);
                }
                if k == 5 {
                    assert(o[5] == "ppt"@);
                }
            }
        }
    } else if x == "json"@ {
        assert(t[6] == x);
        assert(x[0] == 'j' && x[1] == 's' && x[2] == 'o' && x[3] == 'n');
        assert(!o.contains(x)) by {
            if o.contains(x) {
                let k = choose|k: int| 0 <= k < o.len() && o[k] == x;
                if k == 0 {
                    assert(o[0] == "docx"@);
                }
                if k == 1 {
                    assert(o[1] == "xlsx"@);
                }
                if k == 2 {
                    assert(o[2] == "pptx"@);
                }
                if k == 3 {
                    assert(o[3] == "doc"@);
                }
                if k == 4 {
                    assert(o[4] == "xls"@);
                }
                if k == 5 {
                    assert(o[5] == "ppt"@);
                }
            }
        }
    } else if x == "yaml"@ {
        assert(t[7] == x);
        assert(x[0] == 'y' && x[1] == 'a' && x[2] == 'm' && x[3] == 'l');
        assert(!o.contains(x)) by {
            if o.contains(x) {
                let k = choose|k: int| 0 <= k < o.len() && o[k] == x;
                if k == 0 {
                    assert(o[0] == "docx"@);
                }
                if k == 1 {
                    assert(o[1] == "xlsx"@);
                }
                if k == 2 {
                    assert(o[2] == "pptx"@);
                }
                if k == 3 {
                    assert(o[3] == "doc"@);
                }
                if k == 4 {
                    assert(o[4] == "xls"@);
                }
                if k == 5 {
                    assert(o[5] == "ppt"@);
                }
            }
        }
    } else if x == "yml"@ {
        assert(t[8] == x);
        assert(x[0] == 'y' && x[1] == 'm' && x[2] == 'l');
        assert(!o.contains(x)) by {
            if o.contains(x) {
                let k = choose|k: int| 0 <= k < o.len() && o[k] == x;
                if k == 0 {
                    assert(o[0] == "docx"@);
                }
                if k == 1 {
                    assert(o[1] == "xlsx"@);
                }
                if k == 2 {
                    assert(o[2] == "pptx"@);
                }
                if k == 3 {
                    assert(o[3] == "doc"@);
                }
                if k == 4 {
                    assert(o[4] == "xls"@);
                }
                if k == 5 {
                    assert(o[5] == "ppt"@);
                }
            }
        }
    } else if x == "toml"@ {
        assert(t[9] == x);
        assert(x[0] == 't' && x[1] == 'o' && x[2] == 'm' && x[3] == 'l');
        assert(!o.contains(x)) by {
            if o.contains(x) {
                let k = choose|k: int| 0 <= k < o.len() && o[k] == x;
                if k == 0 {
                    assert(o[0] == "docx"@);
                }
                if k == 1 {
                    assert(o[1] == "xlsx"@);
                }
                if k == 2 {
                    assert(o[2] == "pptx"@);
                }
                if k == 3 {
                    assert(o[3] == "doc"@);
                }
                if k == 4 {
                    assert(o[4] == "xls"@);
                }
                if k == 5 {
                    assert(o[5] == "ppt"@);
                }
            }
        }
    } else if x == "ini"@ {
        assert(t[10] == x);
        assert(x[0] == 'i' && x[1] == 'n' && x[2] == 'i');
        assert(!o.contains(x)) by {
            if o.contains(x) {
                let k = choose|k: int| 0 <= k < o.len() && o[k] == x;
                if k == 0 {
                    assert(o[0] == "docx"@);
                }
                if k == 1 {
                    assert(o[1] == "xlsx"@);
                }
                if k == 2 {
                    assert(o[2] == "pptx"@);
                }
                if k == 3 {
                    assert(o[3] == "doc"@);
                }
                if k == 4 {
                    assert(o[4] == "xls"@);
                }
                if k == 5 {
                    assert(o[5] == "ppt"@);
                }
            }
        }
    } else if x == "conf"@ {
        assert(t[11] == x);
        assert(x[0] == 'c' && x[1] == 'o' && x[2] == 'n' && x[3] == 'f');
        assert(!o.contains(x)) by {
            if o.contains(x) {
                let k = choose|k: int| 0 <= k < o.len() && o[k] == x;
                if k == 0 {
                    assert(o[0] == "docx"@);
                }
                if k == 1 {
                    assert(o[1] == "xlsx"@);
                }
                if k == 2 {
                    assert(o[2] == "pptx"@);
                }
                if k == 3 {
                    assert(o[3] == "doc"@);
                }
                if k == 4 {
                    assert(o[4] == "xls"@);
                }
                if k == 5 {
                    assert(o[5] == "ppt"@);
                }
            }
        }
    } else if x == "xml"@ {
        assert(t[12] == x);
        assert(x[0] == 'x' && x[1] == 'm' && x[2] == 'l');
        assert(!o.contains(x)) by {
            if o.contains(x) {
                let k = choose|k: int| 0 <= k < o.len() && o[k] == x;
                if k == 0 {
                    assert(o[0] == "docx"@);
                }
                if k == 1 {
                    assert(o[1] == "xlsx"@);
                }
                if k == 2 {
                    assert(o[2] == "pptx"@);
                }
                if k == 3 {
                    assert(o[3] == "doc"@);
                }
                if k == 4 {
                    assert(o[4] == "xls"@);
                }
                if k == 5 {
                    assert(o[5] == "ppt"@);
                }
            }
        }
    } else if x == "html"@ {
        assert(t[13] == x);
        assert(x[0] == 'h' && x[1] == 't' && x[2] == 'm' && x[3] == 'l');
        assert(!o.contains(x)) by {
            if o.contains(x) {
                let k = choose|k: int| 0 <= k < o.len() && o[k] == x;
                if k == 0 {
                    assert(o[0] == "docx"@);
                }
                if k == 1 {
                    assert(o[1] == "xlsx"@);
                }
                if k == 2 {
                    assert(o[2] == "pptx"@);
                }
                if k == 3 {
                    assert(o[3] == "doc"@);
                }
                if k == 4 {
                    assert(o[4] == "xls"@);
                }
                if k == 5 {
                    assert(o[5] == "ppt"@);
                }
            }
        }
    } else if x == "htm"@ {
        assert(t[14] == x);
        assert(x[0] == 'h' && x[1] == 't' && x[2] == 'm');
        assert(!o.contains(x)) by {
            if o.contains(x) {
                let k = choose|k: int| 0 <= k < o.len() && o[k] == x;
                if k == 0 {
                    assert(o[0] == "docx"@);
                }
                if k == 1 {
                    assert(o[1] == "xlsx"@);
                }
                if k == 2 {
                    assert(o[2] == "pptx"@);
                }
                if k == 3 {
                    assert(o[3] == "doc"@);
                }
                if k == 4 {
                    assert(o[4] == "xls"@);
                }
                if k == 5 {
                    assert(o[5] == "ppt"@);
                }
            }
        }
    } else if x == "css"@ {
        assert(t[15] == x);
        assert(x[0] == 'c' && x[1] == 's' && x[2] == 's');
        assert(!o.contains(x)) by {
            if o.contains(x) {
                let k = choose|k: int| 0 <= k < o.len() && o[k] == x;
                if k == 0 {
                    assert(o[0] == "docx"@);
                }
                if k == 1 {
                    assert(o[1] == "xlsx"@);
                }
                if k == 2 {
                    assert(o[2] == "pptx"@);
                }
                if k == 3 {
                    assert(o[3] == "doc"@);
                }
                if k == 4 {
                    assert(o[4] == "xls"@);
                }
                if k == 5 {
                    assert(o[5] == "ppt"@);
                }
            }
        }
    } else if x == "js"@ {
        assert(t[16] == x);
        assert(x[0] == 'j' && x[1] == 's');
        assert(!o.contains(x)) by {
            if o.contains(x) {
                let k = choose|k: int| 0 <= k < o.len() && o[k] == x;
                if k == 0 {
                    assert(o[0] == "docx"@);
                }
                if k == 1 {
                    assert(o[1] == "xlsx"@);
                }
                if k == 2 {
                    assert(o[2] == "pptx"@);
                }
                if k == 3 {
                    assert(o[3] == "doc"@);
                }
                if k == 4 {
                    assert(o[4] == "xls"@);
                }
                if k == 5 {
                    assert(o[5] == "ppt"@);
                }
            }
        }
    } else if x == "ts"@ {
        assert(t[17] == x);
        assert(x[0] == 't' && x[1] == 's');
        assert(!o.contains(x)) by {
            if o.contains(x) {
                let k = choose|k: int| 0 <= k < o.len() && o[k] == x;
                if k == 0 {
                    assert(o[0] == "docx"@);
                }
                if k == 1 {
                    assert(o[1] == "xlsx"@);
                }
                if k == 2 {
                    assert(o[2] == "pptx"@);
                }
                if k == 3 {
                    assert(o[3] == "doc"@);
                }
                if k == 4 {
                    assert(o[4] == "xls"@);
                }
                if k == 5 {
                    assert(o[5] == "ppt"@);
                }
            }
        }
    } else if x == "vue"@ {
        assert(t[18] == x);
        assert(x[0] == 'v' && x[1] == 'u' && x[2] == 'e');
        assert(!o.contains(x)) by {
            if o.contains(x) {
                let k = choose|k: int| 0 <= k < o.len() && o[k] == x;
                if k == 0 {
                    assert(o[0] == "docx"@);
                }
                if k == 1 {
                    assert(o[1] == "xlsx"@);
                }
                if k == 2 {
                    assert(o[2] == "pptx"@);
                }
                if k == 3 {
                    assert(o[3] == "doc"@);
                }
                if k == 4 {
                    assert(o[4] == "xls"@);
                }
                if k == 5 {
                    assert(o[5] == "ppt"@);
                }
            }
        }
    } else if x == "sql"@ {
        assert(t[19] == x);
        assert(x[0] == 's' && x[1] == 'q' && x[2] == 'l');
        assert(!o.contains(x)) by {
            if o.contains(x) {
                let k = choose|k: int| 0 <= k < o.len() && o[k] == x;
                if k == 0 {
                    assert(o[0] == "docx"@);
                }
                if k == 1 {
                    assert(o[1] == "xlsx"@);
                }
                if k == 2 {
                    assert(o[2] == "pptx"@);
                }
                if k == 3 {
                    assert(o[3] == "doc"@);
                }
                if k == 4 {
                    assert(o[4] == "xls"@);
                }
                if k == 5 {
                    assert(o[5] == "ppt"@);
                }
            }
        }
    } else if x == "py"@ {
        assert(t[20] == x);
        assert(x[0] == 'p' && x[1] == 'y');
        assert(!o.contains(x)) by {
            if o.contains(x) {
                let k = choose|k: int| 0 <= k < o.len() && o[k] == x;
                if k == 0 {
                    assert(o[0] == "docx"@);
                }
                if k == 1 {
                    assert(o[1] == "xlsx"@);
                }
                if k == 2 {
                    assert(o[2] == "pptx"@);
                }
                if k == 3 {
                    assert(o[3] == "doc"@);
                }
                if k == 4 {
                    assert(o[4] == "xls"@);
                }
                if k == 5 {
                    assert(o[5] == "ppt"@);
                }
            }
        }
    } else if x == "sh"@ {
        assert(t[21] == x);
        assert(x[0] == 's' && x[1] == 'h');
        assert(!o.contains(x)) by {
            if o.contains(x) {
                let k = choose|k: int| 0 <= k < o.len() && o[k] == x;
                if k == 0 {
                    assert(o[0] == "docx"@);
                }
                if k == 1 {
                    assert(o[1] == "xlsx"@);
                }
                if k == 2 {
                    assert(o[2] == "pptx"@);
                }
                if k == 3 {
                    assert(o[3] == "doc"@);
                }
                if k == 4 {
                    assert(o[4] == "xls"@);
                }
                if k == 5 {
                    assert(o[5] == "ppt"@);
                }
            }
        }
    } else if x == "bat"@ {
        assert(t[22] == x);
        assert(x[0] == 'b' && x[1] == 'a' && x[2] == 't');
        assert(!o.contains(x)) by {
            if o.contains(x) {
                let k = choose|k: int| 0 <= k < o.len() && o[k] == x;
                if k == 0 {
                    assert(o[0] == "docx"@);
                }
                if k == 1 {
                    assert(o[1] == "xlsx"@);
                }
                if k == 2 {
                    assert(o[2] == "pptx"@);
                }
                if k == 3 {
                    assert(o[3] == "doc"@);
                }
                if k == 4 {
                    assert(o[4] == "xls"@);
                }
                if k == 5 {
                    assert(o[5] == "ppt"@);
                }
            }
        }
    } else if x == "ps1"@ {
        assert(t[23] == x);
        assert(x[0] == 'p' && x[1] == 's' && x[2] == '1');
        assert(!o.contains(x)) by {
            if o.contains(x) {
                let k = choose|k: int| 0 <= k < o.len() && o[k] == x;
                if k == 0 {
                    assert(o[0] == "docx"@);
                }
                if k == 1 {
                    assert(o[1] == "xlsx"@);
                }
                if k == 2 {
                    assert(o[2] == "pptx"@);
                }
                if k == 3 {
                    assert(o[3] == "doc"@);
                }
                if k == 4 {
                    assert(o[4] == "xls"@);
                }
                if k == 5 {
                    assert(o[5] == "ppt"@);
                }
            }
        }
    }
}

/// No file inside a `.git` or `node_modules` directory is searched.
pub proof fn lemma_excluded_dirs_not_searched(path: Seq<char>, i: int, is_file: bool, size: Option<u64>, glob: Option<Seq<char>>)
    requires
        0 <= i < components(path).len(),
        components(path)[i].drop_first() == ".git"@ || components(path)[i].drop_first() == "node_modules"@,
    ensures
        entry_kind_spec(path, is_file, size, glob) is None,
{
    let e = excluded_dirs();
    if components(path)[i].drop_first() == ".git"@ {
        assert(e[0] == components(path)[i].drop_first());
    } else {
        assert(e[1] == components(path)[i].drop_first());
    }
}

/// Largest file searched as plain text (8 MiB) and as an Office document
/// (32 MiB, images make them larger).
pub open spec fn size_cap(kind: FileKind) -> nat {
    match kind {
        FileKind::Text => 8388608,
        FileKind::Office => 33554432,
    }
}

/// Whether a walked entry is searched, and how: entries inside `.git` or
/// `node_modules` are not, nor anything but regular files, nor files that
/// [`classify_spec`] rejects, nor files over their kind's size cap (when
/// the size is known).
pub open spec fn entry_kind_spec(path: Seq<char>, is_file: bool, size: Option<u64>, glob: Option<Seq<char>>) -> Option<FileKind> {
    if exists|i: int| 0 <= i < components(path).len() && excluded_dirs().contains(#[trigger] components(path)[i].drop_first()) {
        None
    } else if !is_file {
        None
    } else {
        match classify_spec(path, glob) {
            None => None,
            Some(k) => match size {
                Some(l) => if l as nat > size_cap(k) { None } else { Some(k) },
                None => Some(k),
            },
        }
    }
}

/// Whether a walked entry is searched, and how (see [`entry_kind_spec`]).
pub fn entry_kind(path: &str, is_file: bool, size: Option<u64>, glob: Option<&str>) -> (r: Option<FileKind>)
    ensures
        r == entry_kind_spec(path@, is_file, size, match glob { Some(g) => Some(g@), None => None }),
{
    let comps = path_components(path);
    proof {
        crate::paths::lemma_components_tagged(path@);
    }
    let ex = vec![".git", "node_modules"];
    proof {
        assert(tag_views(ex@) =~= excluded_dirs());
    }
    let mut i: usize = 0;
    while i < comps.len()
        invariant
            i <= comps@.len(),
            dv(comps@) == components(path@),
            tag_views(ex@) == excluded_dirs(),
            forall|k: int| 0 <= k < i ==> !excluded_dirs().contains(#[trigger] components(path@)[k].drop_first()),
            forall|k: int| 0 <= k < components(path@).len() ==> #[trigger] components(path@)[k].len() >= 1,
        decreases comps@.len() - i,
    {
        proof {
            assert(comps@[i as int]@ == components(path@)[i as int]);
        }
        let name = slice_range(comps[i].as_slice(), 1, comps[i].len());
        assert(name@ =~= components(path@)[i as int].drop_first());
        if listed(name.as_slice(), &ex) {
            assert(excluded_dirs().contains(components(path@)[i as int].drop_first()));
            return None;
        }
        i = i + 1;
    }
    if !is_file {
        return None;
    }
    match classify(path, glob) {
        None => None,
        Some(k) => {
            let cap: u64 = match k {
                FileKind::Text => 8388608,
                FileKind::Office => 33554432,
            };
            match size {
                Some(l) => if l > cap { None } else { Some(k) },
                None => Some(k),
            }
        },
    }
}

/// The path of `path` below the search root `root`, its components joined
/// with `/`; empty when it is not below the root.
pub open spec fn rel_path_spec(path: Seq<char>, root: Seq<char>) -> Seq<char> {
    let p = components(path);
    let b = components(root);
    if is_under(p, b) { join_slash(comp_texts(p.skip(b.len() as int))) } else { seq![] }
}

pub open spec fn join_slash(c: Seq<Seq<char>>) -> Seq<char>
    decreases c.len(),
{
    if c.len() == 0 {
        seq![]
    } else if c.len() == 1 {
        c[0]
    } else {
        join_slash(c.drop_last()) + seq!['/'] + c.last()
    }
}

/// The path of `path` relative to the search root, with `/` separators.
pub fn rel_path(path: &str, root: &str) -> (r: String)
    ensures
        r@ == rel_path_spec(path@, root@),
{
    let p = path_components(path);
    let b = path_components(root);
    if !crate::paths::comps_under(&p, &b) {
        return String::new();
    }
    proof {
        crate::paths::lemma_components_tagged(path@);
    }
    let mut out: Vec<char> = Vec::new();
    let mut i = b.len();
    let ghost rest = comp_texts(dv(p@).skip(b@.len() as int));
    while i < p.len()
        invariant
            b@.len() <= i <= p@.len(),
            rest == comp_texts(dv(p@).skip(b@.len() as int)),
            dv(p@) == components(path@),
            forall|k: int| 0 <= k < components(path@).len() ==> #[trigger] components(path@)[k].len() >= 1,
            out@ == join_slash(rest.take(i - b@.len())),
        decreases p@.len() - i,
    {
        let ghost o = out@;
        let ghost t = rest.take(i + 1 - b@.len());
        proof {
            assert(t.drop_last() =~= rest.take(i - b@.len()));
            assert(t.last() == p@[i as int]@.drop_first());
            assert(p@[i as int]@ == components(path@)[i as int]);
        }
        if i > b.len() {
            out.push('/');
        } else {
            assert(rest.take(i - b@.len()) =~= Seq::<Seq<char>>::empty());
        }
        let name = slice_range(p[i].as_slice(), 1, p[i].len());
        assert(name@ =~= p@[i as int]@.drop_first());
        out.extend_from_slice(name.as_slice());
        assert(out@ =~= join_slash(t));
        i = i + 1;
    }
    assert(rest.take(p@.len() - b@.len()) =~= rest);
    string_from_chars(out.as_slice())
}

/// Longest line text a hit shows, in characters.
pub const LINE_TEXT_MAX_CHARS: usize = 300;

/// The shown line text: at most 300 characters, then `…` when cut.
pub open spec fn shown_text(line: Seq<char>) -> Seq<char> {
    if line.len() > 300 { line.take(300).push('…') } else { line }
}

/// The view of a hit: path, relative path, line, column, text, start, end.
pub open spec fn hit_view(h: SearchHit) -> (Seq<char>, Seq<char>, nat, nat, Seq<char>, nat, nat) {
    (h.path@, h.rel_path@, h.line as nat, h.column as nat, h.line_text@, h.match_start as nat, h.match_end as nat)
}

pub open spec fn hit_views(v: Seq<SearchHit>) -> Seq<(Seq<char>, Seq<char>, nat, nat, Seq<char>, nat, nat)> {
    v.map_values(|h: SearchHit| hit_view(h))
}

/// The hit for a match at characters `cs..ce` of line `line_no` whose
/// shown text is `line`: column `cs + 1`.
pub open spec fn make_hit_spec(path: Seq<char>, rel: Seq<char>, line_no: nat, line: Seq<char>, cs: nat, ce: nat)
    -> (Seq<char>, Seq<char>, nat, nat, Seq<char>, nat, nat) {
    (path, rel, line_no, cs + 1, shown_text(line), cs, ce)
}

/// Builds a hit (see [`make_hit_spec`]).
pub fn make_hit(path: &str, rel: &str, line_no: usize, line: &[char], cs: usize, ce: usize) -> (r: SearchHit)
    requires
        cs < usize::MAX,
    ensures
        hit_view(r) == make_hit_spec(path@, rel@, line_no as nat, line@, cs as nat, ce as nat),
{
    let text = if line.len() > LINE_TEXT_MAX_CHARS {
        let mut t = slice_range(line, 0, LINE_TEXT_MAX_CHARS);
        t.push('…');
        assert(t@ =~= line@.take(300).push('…'));
        t
    } else {
        slice_range(line, 0, line.len())
    };
    proof {
        assert(line@.subrange(0, line@.len() as int) =~= line@);
    }
    SearchHit {
        path: String::from_str(path),
        rel_path: String::from_str(rel),
        line: line_no,
        column: cs + 1,
        line_text: string_from_chars(text.as_slice()),
        match_start: cs,
        match_end: ce,
    }
}

/// Counts one hit against the limit: the new total, and whether the search
/// must stop (the total has reached `max_results`).
pub fn record_hit(total: usize, max_results: usize) -> (r: (usize, bool))
    requires
        total < usize::MAX,
    ensures
        r.0 == total + 1,
        r.1 == (total + 1 >= max_results),
{
    let t = total + 1;
    (t, t >= max_results)
}

/// Number of bytes in the UTF-8 encoding of the first `k` characters.
pub open spec fn blen(t: Seq<char>, k: int) -> nat {
    encode_utf8(t.take(k)).len()
}

/// The character index at byte offset `b` of the UTF-8 encoding of `t`,
/// when `b` is a character boundary.
pub open spec fn char_index(t: Seq<char>, b: nat) -> Option<nat> {
    if exists|k: nat| k <= t.len() && blen(t, k as int) == b {
        Some(choose|k: nat| k <= t.len() && blen(t, k as int) == b)
    } else {
        None
    }
}

pub open spec fn count_nl(s: Seq<char>) -> nat
    decreases s.len(),
{
    if s.len() == 0 { 0 } else { count_nl(s.drop_last()) + if s.last() == '\n' { 1nat } else { 0nat } }
}

/// Start of the line holding character `k`: just after the last `\n`
/// before it, or 0.
pub open spec fn line_start(t: Seq<char>, k: nat) -> nat {
    (crate::paths::last_index(t.take(k as int), '\n') + 1) as nat
}

/// Number of white-space characters that open the line holding character
/// `k`.
pub open spec fn lead_of(t: Seq<char>, k: nat) -> nat {
    let ls = line_start(t, k);
    let le = ls + crate::office::first_index(t.skip(ls as int), '\n');
    let raw = t.subrange(ls as int, le as int);
    (raw.len() - trim_start(raw).len()) as nat
}

/// Whether a match starting at character `cs` starts inside the white space
/// that opens its line, so that its column in the trimmed line would be
/// negative.
pub open spec fn starts_in_lead(t: Seq<char>, cs: nat) -> bool {
    cs - line_start(t, cs) < lead_of(t, cs)
}

/// The hit of a match at characters `cs..ce` of the text `t`: line number,
/// the line trimmed, and the match's character offsets in the trimmed line
/// (offsets in the line less the leading white space).
pub open spec fn text_hit(t: Seq<char>, cs: nat, ce: nat) -> (nat, Seq<char>, nat, nat) {
    let ls = line_start(t, cs);
    let le = ls + crate::office::first_index(t.skip(ls as int), '\n');
    let raw = t.subrange(ls as int, le as int);
    let lead = lead_of(t, cs);
    (1 + count_nl(t.take(cs as int)), trim(raw), (cs - ls - lead) as nat, (ce - ls - lead) as nat)
}

/// The hits of a whole-text scan from byte `at`, at most `quota` of them:
/// each match (in order, as `find_at` reports) gives a hit; the scan goes
/// on after the match, or one character further after an empty match, and
/// ends at the end of the text, at a match that does not fall on character
/// boundaries, or when the quota is used up.
pub open spec fn scan_hits(pat: Seq<char>, ci: bool, t: Seq<char>, at: nat, quota: nat) -> Seq<(nat, Seq<char>, nat, nat)>
    decreases encode_utf8(t).len() - at,
{
    let n = encode_utf8(t).len();
    if quota == 0 || at >= n {
        seq![]
    } else {
        match regex_find_at(pat, ci, encode_utf8(t), at) {
            None => seq![],
            Some(m) => {
                let (s, e) = m;
                if !(at <= s && s <= e && e <= n) {
                    seq![]
                } else {
                    match (char_index(t, s), char_index(t, e)) {
                        (Some(cs), Some(ce)) => {
                            let rest = if quota <= 1 {
                                Seq::<(nat, Seq<char>, nat, nat)>::empty()
                            } else if e > s {
                                scan_hits(pat, ci, t, e, (quota - 1) as nat)
                            } else if ce < t.len() && e + utf8_width(t[ce as int]) <= n {
                                scan_hits(pat, ci, t, e + utf8_width(t[ce as int]), (quota - 1) as nat)
                            } else {
                                Seq::<(nat, Seq<char>, nat, nat)>::empty()
                            };
                            seq![text_hit(t, cs, ce)] + rest
                        },
                        _ => seq![],
                    }
                }
            },
        }
    }
}

/// Whether the scan of [`scan_hits`] meets no match that starts inside the
/// white space opening its line (there the column would go below zero).
pub open spec fn scan_ok(pat: Seq<char>, ci: bool, t: Seq<char>, at: nat, quota: nat) -> bool
    decreases encode_utf8(t).len() - at,
{
    let n = encode_utf8(t).len();
    if quota == 0 || at >= n {
        true
    } else {
        match regex_find_at(pat, ci, encode_utf8(t), at) {
            None => true,
            Some(m) => {
                let (s, e) = m;
                if !(at <= s && s <= e && e <= n) {
                    true
                } else {
                    match (char_index(t, s), char_index(t, e)) {
                        (Some(cs), Some(ce)) => {
                            !starts_in_lead(t, cs) && (if quota <= 1 {
                                true
                            } else if e > s {
                                scan_ok(pat, ci, t, e, (quota - 1) as nat)
                            } else if ce < t.len() && e + utf8_width(t[ce as int]) <= n {
                                scan_ok(pat, ci, t, e + utf8_width(t[ce as int]), (quota - 1) as nat)
                            } else {
                                true
                            })
                        },
                        _ => true,
                    }
                }
            },
        }
    }
}

/// The hits shown for a list of scan results.
pub open spec fn shown_hits(path: Seq<char>, rel: Seq<char>, h: Seq<(nat, Seq<char>, nat, nat)>)
    -> Seq<(Seq<char>, Seq<char>, nat, nat, Seq<char>, nat, nat)> {
    h.map_values(|x: (nat, Seq<char>, nat, nat)| make_hit_spec(path, rel, x.0, x.1, x.2, x.3))
}

proof fn lemma_encode_push(a: Seq<char>, c: char)
    ensures
        encode_utf8(a.push(c)) == encode_utf8(a) + vstd::utf8::encode_scalar(c as u32),
    decreases a.len(),
{
    if a.len() == 0 {
        assert(a.push(c).drop_first() =~= Seq::<char>::empty());
        assert(a.push(c)[0] == c);
        assert(encode_utf8(Seq::<char>::empty()) =~= Seq::<u8>::empty());
        assert(encode_utf8(a) =~= Seq::<u8>::empty());
        assert(encode_utf8(a.push(c)) =~= vstd::utf8::encode_scalar(c as u32));
    } else {
        lemma_encode_push(a.drop_first(), c);
        assert(a.push(c).drop_first() =~= a.drop_first().push(c));
        assert(a.push(c)[0] == a[0]);
        assert(encode_utf8(a.push(c)) =~= encode_utf8(a) + vstd::utf8::encode_scalar(c as u32));
    }
}

proof fn lemma_scalar_len(c: char)
    ensures
        vstd::utf8::encode_scalar(c as u32).len() == utf8_width(c),
{
    vstd::utf8::char_is_scalar(c);
}

proof fn lemma_blen_step(t: Seq<char>, k: int)
    requires
        0 <= k < t.len(),
    ensures
        blen(t, k + 1) == blen(t, k) + utf8_width(t[k]),
{
    assert(t.take(k + 1) =~= t.take(k).push(t[k]));
    lemma_encode_push(t.take(k), t[k]);
    lemma_scalar_len(t[k]);
}

proof fn lemma_blen_mono(t: Seq<char>, i: int, j: int)
    requires
        0 <= i < j <= t.len(),
    ensures
        blen(t, i) < blen(t, j),
    decreases j - i,
{
    lemma_blen_step(t, j - 1);
    if i < j - 1 {
        lemma_blen_mono(t, i, j - 1);
    }
}

proof fn lemma_char_index(t: Seq<char>, b: nat, k: nat)
    requires
        k <= t.len(),
        blen(t, k as int) == b,
    ensures
        char_index(t, b) == Some(k),
{
    let c = choose|m: nat| m <= t.len() && blen(t, m as int) == b;
    if c < k {
        lemma_blen_mono(t, c as int, k as int);
    } else if c > k {
        lemma_blen_mono(t, k as int, c as int);
    }
}

proof fn lemma_no_char_index(t: Seq<char>, b: nat, k: nat)
    requires
        k <= t.len(),
        k == 0 || blen(t, k - 1) < b,
        k == t.len() || blen(t, k as int) > b,
        blen(t, k as int) != b,
    ensures
        char_index(t, b) is None,
{
    if exists|m: nat| m <= t.len() && blen(t, m as int) == b {
        let m = choose|m: nat| m <= t.len() && blen(t, m as int) == b;
        if m < k {
            if m < k - 1 {
                lemma_blen_mono(t, m as int, k - 1);
            }
        } else if m > k {
            lemma_blen_mono(t, k as int, m as int);
        }
    }
}

fn width_of(c: char) -> (r: usize)
    ensures
        r == utf8_width(c),
{
    let u = c as u32;
    if u < 0x80 { 1 } else if u < 0x800 { 2 } else if u < 0x10000 { 3 } else { 4 }
}

/// Byte offsets of every character boundary: `r[k]` is [`blen`]`(t, k)`.
fn boundaries(t: &Vec<char>, n: usize) -> (r: Vec<usize>)
    requires
        n == encode_utf8(t@).len(),
    ensures
        r@.len() == t@.len() + 1,
        forall|k: int| 0 <= k <= t@.len() ==> #[trigger] r@[k] as nat == blen(t@, k),
{
    let mut offs: Vec<usize> = Vec::new();
    offs.push(0);
    let mut acc: usize = 0;
    let mut k: usize = 0;
    proof {
        assert(t@.take(0) =~= Seq::<char>::empty());
        assert(t@.take(t@.len() as int) =~= t@);
    }
    while k < t.len()
        invariant
            k <= t@.len(),
            n == encode_utf8(t@).len(),
            n == blen(t@, t@.len() as int),
            offs@.len() == k + 1,
            acc as nat == blen(t@, k as int),
            forall|m: int| 0 <= m <= k ==> #[trigger] offs@[m] as nat == blen(t@, m),
        decreases t@.len() - k,
    {
        proof {
            lemma_blen_step(t@, k as int);
            if k + 1 < t@.len() {
                lemma_blen_mono(t@, k + 1, t@.len() as int);
            }
        }
        acc = acc + width_of(t[k]);
        offs.push(acc);
        k = k + 1;
    }
    offs
}

/// `count_nl` and `line_start` advanced from character `p` to `q`.
fn advance_lines(t: &Vec<char>, p: usize, q: usize, ls: usize, ln: usize) -> (r: (usize, usize))
    requires
        p <= q <= t@.len(),
        q < usize::MAX,
        ls as nat == line_start(t@, p as nat),
        ln as nat == 1 + count_nl(t@.take(p as int)),
        ln <= p + 1,
    ensures
        r.0 as nat == line_start(t@, q as nat),
        r.1 as nat == 1 + count_nl(t@.take(q as int)),
        r.1 <= q + 1,
        r.0 <= q,
{
    let mut i = p;
    let mut ls = ls;
    let mut ln = ln;
    proof {
        crate::paths::lemma_last_index_bound(t@.take(p as int), '\n');
    }
    while i < q
        invariant
            p <= i <= q <= t@.len(),
            q < usize::MAX,
            ls as nat == line_start(t@, i as nat),
            ln as nat == 1 + count_nl(t@.take(i as int)),
            ln <= i + 1,
            ls <= i,
        decreases q - i,
    {
        proof {
            assert(t@.take(i + 1).drop_last() =~= t@.take(i as int));
            assert(t@.take(i + 1).last() == t@[i as int]);
        }
        if t[i] == '\n' {
            ls = i + 1;
            ln = ln + 1;
        }
        i = i + 1;
    }
    (ls, ln)
}

/// The character index at byte `b`, searching from character `from` on.
fn index_of_offset(t: &Vec<char>, offs: &Vec<usize>, from: usize, b: usize) -> (r: Option<usize>)
    requires
        offs@.len() == t@.len() + 1,
        forall|k: int| 0 <= k <= t@.len() ==> #[trigger] offs@[k] as nat == blen(t@, k),
        from <= t@.len(),
        blen(t@, from as int) <= b,
    ensures
        r matches Some(k) ==> from <= k <= t@.len() && char_index(t@, b as nat) == Some(k as nat),
        r is None ==> char_index(t@, b as nat) is None,
{
    let mut k = from;
    while k < t.len() && offs[k] < b
        invariant
            from <= k <= t@.len(),
            offs@.len() == t@.len() + 1,
            forall|m: int| 0 <= m <= t@.len() ==> #[trigger] offs@[m] as nat == blen(t@, m),
            k == from || blen(t@, k - 1) < b,
        decreases t@.len() - k,
    {
        k = k + 1;
    }
    if offs[k] == b {
        proof {
            lemma_char_index(t@, b as nat, k as nat);
        }
        Some(k)
    } else {
        proof {
            if k == from && k > 0 {
                lemma_blen_mono(t@, k - 1, k as int);
            }
            lemma_no_char_index(t@, b as nat, k as nat);
        }
        None
    }
}

/// The hit of a match at characters `cs..ce`, given the start and number
/// of its line (see [`text_hit`]); nothing when the match starts inside the
/// line's leading white space.
fn line_hit(t: &Vec<char>, cs: usize, ce: usize, ls: usize, ln: usize, path: &str, rel: &str) -> (r: Option<SearchHit>)
    requires
        ls as nat == line_start(t@, cs as nat),
        ln as nat == 1 + count_nl(t@.take(cs as int)),
        ls <= cs <= ce <= t@.len(),
        ce < usize::MAX,
    ensures
        r is None <==> starts_in_lead(t@, cs as nat),
        r matches Some(hit) ==> ({
            let h = text_hit(t@, cs as nat, ce as nat);
            hit_view(hit) == make_hit_spec(path@, rel@, h.0, h.1, h.2, h.3)
        }),
{
    let le = crate::office::find_from(t.as_slice(), ls, '\n');
    let raw = slice_range(t.as_slice(), ls, le);
    let (a, b) = trim_bounds(raw.as_slice());
    let line = slice_range(raw.as_slice(), a, b);
    let cs0 = cs - ls;
    let ce0 = ce - ls;
    proof {
        assert(raw@.len() - trim_start(raw@).len() == a);
    }
    if cs0 < a {
        return None;
    }
    Some(make_hit(path, rel, ln, line.as_slice(), cs0 - a, ce0 - a))
}

/// Scans a whole text for matches and turns at most `quota` of them into
/// hits (see [`scan_hits`]); nothing when the scan meets a match that
/// starts inside its line's leading white space (see [`scan_ok`]).
#[verifier::rlimit(100)]
pub fn scan_text(text: &str, matcher: &SearchMatcher, path: &str, rel: &str, quota: usize) -> (r: Option<Vec<SearchHit>>)
    requires
        encode_utf8(text@).len() < usize::MAX,
    ensures
        r is Some <==> scan_ok(matcher.pattern(), matcher.ci(), text@, 0, quota as nat),
        r matches Some(v) ==> hit_views(v@) == shown_hits(path@, rel@, scan_hits(matcher.pattern(), matcher.ci(), text@, 0, quota as nat)),
{
    let t = str_chars(text);
    let bytes = text.as_bytes();
    let n = bytes.len();
    let ghost pat = matcher.pattern();
    let ghost ci = matcher.ci();
    let ghost total = shown_hits(path@, rel@, scan_hits(pat, ci, t@, 0, quota as nat));
    proof {
        assert(t@.take(t@.len() as int) =~= t@);
        assert(t@.take(0) =~= Seq::<char>::empty());
        assert(blen(t@, 0) == 0);
        if t@.len() > 0 {
            lemma_blen_mono(t@, 0, t@.len() as int);
        }
        assert(t@.take(0) =~= Seq::<char>::empty());
        assert(count_nl(Seq::<char>::empty()) == 0);
    }
    let offs = boundaries(&t, n);
    proof {
        // the number of characters is below the number of bytes plus one
        assert(offs@[t@.len() as int] as nat == n);
        assert(t@.len() <= n) by {
            lemma_len_le_blen(t@, t@.len() as int);
        }
    }
    let mut hits: Vec<SearchHit> = Vec::new();
    let mut at: usize = 0;
    let mut q: usize = quota;
    let mut pos: usize = 0;
    let mut ls: usize = 0;
    let mut ln: usize = 1;
    let mut done = false;
    let mut bad = false;
    proof {
        assert(hit_views(hits@) =~= Seq::empty());
        assert(total =~= hit_views(hits@) + shown_hits(path@, rel@, scan_hits(pat, ci, t@, at as nat, q as nat)));
        assert(crate::paths::last_index(Seq::<char>::empty(), '\n') == -1);
    }
    while !done
        invariant
            t@ == text@,
            bytes@ == encode_utf8(t@),
            n == bytes@.len(),
            n < usize::MAX,
            t@.len() <= n,
            pat == matcher.pattern(),
            ci == matcher.ci(),
            offs@.len() == t@.len() + 1,
            forall|k: int| 0 <= k <= t@.len() ==> #[trigger] offs@[k] as nat == blen(t@, k),
            at <= n,
            pos <= t@.len(),
            !done ==> blen(t@, pos as int) <= at,
            ls as nat == line_start(t@, pos as nat),
            ln as nat == 1 + count_nl(t@.take(pos as int)),
            ln <= pos + 1,
            total == shown_hits(path@, rel@, scan_hits(pat, ci, t@, 0, quota as nat)),
            !bad ==> total == hit_views(hits@) + (if done { Seq::empty() } else { shown_hits(path@, rel@, scan_hits(pat, ci, t@, at as nat, q as nat)) }),
            done ==> (scan_ok(pat, ci, t@, 0, quota as nat) <==> !bad),
            !done ==> (scan_ok(pat, ci, t@, 0, quota as nat) <==> scan_ok(pat, ci, t@, at as nat, q as nat)),
            !done ==> !bad,
        ensures
            !bad ==> total == hit_views(hits@),
            scan_ok(pat, ci, t@, 0, quota as nat) <==> !bad,
        decreases (if done { 0nat } else { 1nat }), n - at,
    {
        let ghost before = hit_views(hits@);
        if q == 0 || at >= n {
            done = true;
            assert(scan_hits(pat, ci, t@, at as nat, q as nat) =~= Seq::empty());
            assert(total =~= hit_views(hits@) + Seq::empty());
        } else {
            match matcher.find_at(bytes, at) {
                None => {
                    done = true;
                    assert(total =~= hit_views(hits@) + Seq::empty());
                },
                Some((s, e)) => {
                    match index_of_offset(&t, &offs, pos, s) {
                        None => {
                            done = true;
                            assert(total =~= hit_views(hits@) + Seq::empty());
                        },
                        Some(cs) => {
                            proof {
                                if cs < t@.len() {
                                    lemma_blen_mono(t@, cs as int, t@.len() as int);
                                }
                                assert(blen(t@, cs as int) <= e);
                            }
                            match index_of_offset(&t, &offs, cs, e) {
                                None => {
                                    done = true;
                                    assert(total =~= hit_views(hits@) + Seq::empty());
                                },
                                Some(ce) => {
                                    let (nls, nln) = advance_lines(&t, pos, cs, ls, ln);
                                    let ghost ok_before = scan_ok(pat, ci, t@, at as nat, q as nat);
                                    let hit = match line_hit(&t, cs, ce, nls, nln, path, rel) {
                                        Some(h) => h,
                                        None => {
                                            done = true;
                                            bad = true;
                                            assert(!ok_before);
                                            break;
                                        },
                                    };
                                    let ghost hv = hit_view(hit);
                                    hits.push(hit);
                                    let ghost h = text_hit(t@, cs as nat, ce as nat);
                                    let ghost rest_before = scan_hits(pat, ci, t@, at as nat, q as nat);
                                    proof {
                                        assert(hit_views(hits@) =~= before.push(hv));
                                    }
                                    pos = cs;
                                    ls = nls;
                                    ln = nln;
                                    if q <= 1 {
                                        done = true;
                                        proof {
                                            assert(rest_before =~= seq![h]);
                                            assert(shown_hits(path@, rel@, seq![h]) =~= seq![hv]);
                                            assert(total =~= hit_views(hits@) + Seq::empty());
                                        }
                                    } else if e > s {
                                        proof {
                                            let rest = scan_hits(pat, ci, t@, e as nat, (q - 1) as nat);
                                            assert(rest_before == seq![h] + rest);
                                            assert(shown_hits(path@, rel@, seq![h] + rest) =~= seq![hv] + shown_hits(path@, rel@, rest));
                                            assert(total =~= hit_views(hits@) + shown_hits(path@, rel@, rest));
                                            assert(blen(t@, cs as int) <= s);
                                        }
                                        at = e;
                                        q = q - 1;
                                    } else if ce < t.len() && width_of(t[ce]) <= n - e {
                                        let w = width_of(t[ce]);
                                        proof {
                                            let rest = scan_hits(pat, ci, t@, (e + w) as nat, (q - 1) as nat);
                                            assert(rest_before == seq![h] + rest);
                                            assert(shown_hits(path@, rel@, seq![h] + rest) =~= seq![hv] + shown_hits(path@, rel@, rest));
                                            assert(total =~= hit_views(hits@) + shown_hits(path@, rel@, rest));
                                        }
                                        at = e + w;
                                        q = q - 1;
                                    } else {
                                        done = true;
                                        proof {
                                            assert(rest_before =~= seq![h]);
                                            assert(shown_hits(path@, rel@, seq![h]) =~= seq![hv]);
                                            assert(total =~= hit_views(hits@) + Seq::empty());
                                        }
                                    }
                                },
                            }
                        },
                    }
                },
            }
        }
    }
    if bad {
        return None;
    }
    assert(total =~= hit_views(hits@));
    Some(hits)
}

proof fn lemma_len_le_blen(t: Seq<char>, k: int)
    requires
        0 <= k <= t.len(),
    ensures
        k <= blen(t, k),
    decreases k,
{
    if k > 0 {
        lemma_len_le_blen(t, k - 1);
        lemma_blen_step(t, k - 1);
    } else {
        assert(t.take(0) =~= Seq::<char>::empty());
    }
}

/// Trailing `\r` and `\n` removed.
pub open spec fn strip_eol(s: Seq<char>) -> Seq<char>
    decreases s.len(),
{
    if s.len() > 0 && (s.last() == '\r' || s.last() == '\n') { strip_eol(s.drop_last()) } else { s }
}

/// The first match in a reported line (terminator removed), as character
/// offsets, when it falls on character boundaries.
pub open spec fn line_match(pat: Seq<char>, ci: bool, l: Seq<char>) -> Option<(nat, nat)> {
    let n = encode_utf8(l).len();
    if n >= usize::MAX {
        None
    } else {
        match regex_find_at(pat, ci, encode_utf8(l), 0) {
            None => None,
            Some(m) => {
                let (s, e) = m;
                if !(s <= e && e <= n) {
                    None
                } else {
                    match (char_index(l, s), char_index(l, e)) {
                        (Some(cs), Some(ce)) => Some((cs, ce)),
                        _ => None,
                    }
                }
            },
        }
    }
}

/// The hits of the lines a searcher reported, at most `quota`: each line
/// (terminator removed) with a match gives one hit at its first match; the
/// shown text is the line itself, untrimmed.
pub open spec fn grep_hits(pat: Seq<char>, ci: bool, lines: Seq<(nat, Seq<char>)>, quota: nat) -> Seq<(nat, Seq<char>, nat, nat)>
    decreases lines.len(),
{
    if quota == 0 || lines.len() == 0 {
        seq![]
    } else {
        let l = strip_eol(lines[0].1);
        match line_match(pat, ci, l) {
            Some(m) => seq![((lines[0].0 as usize) as nat, l, m.0, m.1)] + grep_hits(pat, ci, lines.drop_first(), (quota - 1) as nat),
            None => grep_hits(pat, ci, lines.drop_first(), quota),
        }
    }
}

fn strip_eol_chars(v: &[char]) -> (r: Vec<char>)
    ensures
        r@ == strip_eol(v@),
{
    let mut b = v.len();
    proof {
        assert(v@.subrange(0, b as int) =~= v@);
    }
    while b > 0 && (v[b - 1] == '\r' || v[b - 1] == '\n')
        invariant
            b <= v@.len(),
            strip_eol(v@.subrange(0, b as int)) == strip_eol(v@),
        decreases b,
    {
        proof {
            assert(v@.subrange(0, b as int).drop_last() =~= v@.subrange(0, b - 1));
            assert(v@.subrange(0, b as int).last() == v@[b - 1]);
        }
        b = b - 1;
    }
    proof {
        if b > 0 {
            assert(v@.subrange(0, b as int).last() == v@[b - 1]);
        }
    }
    slice_range(v, 0, b)
}

/// Turns the lines a searcher reported into at most `quota` hits (see
/// [`grep_hits`]).
#[verifier::rlimit(60)]
pub fn grep_line_hits(lines: &Vec<(u64, String)>, matcher: &SearchMatcher, path: &str, rel: &str, quota: usize) -> (r: Vec<SearchHit>)
    ensures
        hit_views(r@) == shown_hits(path@, rel@, grep_hits(matcher.pattern(), matcher.ci(), line_views(lines@), quota as nat)),
{
    let ghost pat = matcher.pattern();
    let ghost ci = matcher.ci();
    let ghost lv = line_views(lines@);
    let ghost total = shown_hits(path@, rel@, grep_hits(pat, ci, lv, quota as nat));
    let mut hits: Vec<SearchHit> = Vec::new();
    let mut i: usize = 0;
    let mut q = quota;
    proof {
        assert(lv.skip(0) =~= lv);
        assert(total =~= hit_views(hits@) + shown_hits(path@, rel@, grep_hits(pat, ci, lv.skip(0), q as nat)));
    }
    while i < lines.len() && q > 0
        invariant
            i <= lines@.len(),
            lv == line_views(lines@),
            pat == matcher.pattern(),
            ci == matcher.ci(),
            total == hit_views(hits@) + shown_hits(path@, rel@, grep_hits(pat, ci, lv.skip(i as int), q as nat)),
        decreases lines@.len() - i,
    {
        let ghost before = hit_views(hits@);
        let ghost cur = lv.skip(i as int);
        proof {
            assert(cur[0] == lv[i as int]);
            assert(cur.drop_first() =~= lv.skip(i + 1));
        }
        let (n, text) = (lines[i].0, &lines[i].1);
        let l = strip_eol_chars(str_chars(text.as_str()).as_slice());
        let ls = string_from_chars(l.as_slice());
        let bytes = ls.as_str().as_bytes();
        let nb = bytes.len();
        let mut matched = false;
        if nb < usize::MAX {
            match matcher.find_at(bytes, 0) {
                None => {},
                Some((s, e)) => {
                    let offs = boundaries(&l, nb);
                    proof {
                        assert(l@.take(0) =~= Seq::<char>::empty());
                        assert(blen(l@, 0) == 0);
                        assert(l@.take(l@.len() as int) =~= l@);
                        lemma_len_le_blen(l@, l@.len() as int);
                    }
                    match index_of_offset(&l, &offs, 0, s) {
                        None => {},
                        Some(cs) => {
                            proof {
                                if cs < l@.len() {
                                    lemma_blen_mono(l@, cs as int, l@.len() as int);
                                }
                            }
                            match index_of_offset(&l, &offs, cs, e) {
                                None => {},
                                Some(ce) => {
                                    let hit = make_hit(path, rel, n as usize, l.as_slice(), cs, ce);
                                    let ghost hv = hit_view(hit);
                                    hits.push(hit);
                                    matched = true;
                                    proof {
                                        let h = ((n as usize) as nat, l@, cs as nat, ce as nat);
                                        let rest = grep_hits(pat, ci, lv.skip(i + 1), (q - 1) as nat);
                                        assert(line_match(pat, ci, l@) == Some((cs as nat, ce as nat)));
                                        assert(grep_hits(pat, ci, cur, q as nat) == seq![h] + rest);
                                        assert(shown_hits(path@, rel@, seq![h] + rest) =~= seq![hv] + shown_hits(path@, rel@, rest));
                                        assert(hit_views(hits@) =~= before.push(hv));
                                        assert(total =~= hit_views(hits@) + shown_hits(path@, rel@, rest));
                                    }
                                },
                            }
                        },
                    }
                },
            }
        }
        if matched {
            q = q - 1;
        } else {
            proof {
                assert(line_match(pat, ci, l@) is None);
                assert(grep_hits(pat, ci, cur, q as nat) == grep_hits(pat, ci, lv.skip(i + 1), q as nat));
            }
        }
        i = i + 1;
    }
    proof {
        if q == 0 {
            assert(grep_hits(pat, ci, lv.skip(i as int), q as nat) =~= Seq::empty());
        } else {
            assert(lv.skip(i as int) =~= Seq::empty());
        }
        assert(shown_hits(path@, rel@, Seq::<(nat, Seq<char>, nat, nat)>::empty()) =~= Seq::empty());
    }
    assert(total =~= hit_views(hits@));
    hits
}

/// The hits of a plain-text file's bytes, at most `quota`: valid UTF-8 goes
/// through the line searcher ([`grep_hits`]); anything else is decoded as
/// reading a file would decode it and scanned whole ([`scan_hits`]).
pub open spec fn file_hits(pat: Seq<char>, ci: bool, b: Seq<u8>, quota: nat) -> Seq<(nat, Seq<char>, nat, nat)> {
    if valid_utf8(b) {
        grep_hits(pat, ci, grep_lines(pat, ci, b), quota)
    } else {
        let c = crate::fs_service::detect_spec(b).0;
        if encode_utf8(c).len() < usize::MAX { scan_hits(pat, ci, c, 0, quota) } else { seq![] }
    }
}

/// Whether searching a plain-text file meets no match inside the leading
/// white space of a line: always for valid UTF-8 (the line searcher), else
/// as the scan of the decoded text says ([`scan_ok`]).
pub open spec fn file_ok(pat: Seq<char>, ci: bool, b: Seq<u8>, quota: nat) -> bool {
    if valid_utf8(b) {
        true
    } else {
        let c = crate::fs_service::detect_spec(b).0;
        encode_utf8(c).len() >= usize::MAX || scan_ok(pat, ci, c, 0, quota)
    }
}

/// Searches a plain-text file whose content is `bytes` (see [`file_hits`]);
/// nothing when the scan of decoded text meets a match that starts inside
/// its line's leading white space (see [`file_ok`]).
pub fn search_text_bytes(bytes: &[u8], matcher: &SearchMatcher, path: &str, rel: &str, quota: usize) -> (r: Option<Vec<SearchHit>>)
    ensures
        r is Some <==> file_ok(matcher.pattern(), matcher.ci(), bytes@, quota as nat),
        r matches Some(v) ==> hit_views(v@) == shown_hits(path@, rel@, file_hits(matcher.pattern(), matcher.ci(), bytes@, quota as nat)),
{
    if crate::text::str_from_utf8(bytes).is_some() {
        let lines = matcher.matching_lines(bytes);
        Some(grep_line_hits(&lines, matcher, path, rel, quota))
    } else {
        let det = crate::fs_service::detect_text(bytes);
        proof {
            assert(det.content@ == crate::fs_service::detect_spec(bytes@).0);
        }
        let text = det.content.as_str();
        if text.as_bytes().len() < usize::MAX {
            scan_text(text, matcher, path, rel, quota)
        } else {
            assert(shown_hits(path@, rel@, Seq::<(nat, Seq<char>, nat, nat)>::empty()) =~= Seq::empty());
            Some(Vec::new())
        }
    }
}

/// Scanning decoded text never yields more hits than its quota.
pub proof fn lemma_scan_hits_bounded(pat: Seq<char>, ci: bool, t: Seq<char>, at: nat, quota: nat)
    ensures
        scan_hits(pat, ci, t, at, quota).len() <= quota,
    decreases encode_utf8(t).len() - at,
{
    let n = encode_utf8(t).len();
    if quota == 0 || at >= n {
    } else {
        match regex_find_at(pat, ci, encode_utf8(t), at) {
            None => {},
            Some(m) => {
                let (s, e) = m;
                if at <= s && s <= e && e <= n {
                    match (char_index(t, s), char_index(t, e)) {
                        (Some(cs), Some(ce)) => {
                            if quota <= 1 {
                            } else if e > s {
                                lemma_scan_hits_bounded(pat, ci, t, e, (quota - 1) as nat);
                            } else if ce < t.len() && e + utf8_width(t[ce as int]) <= n {
                                lemma_scan_hits_bounded(pat, ci, t, e + utf8_width(t[ce as int]), (quota - 1) as nat);
                            }
                        },
                        _ => {},
                    }
                }
            },
        }
    }
}

/// The line searcher never yields more hits than its quota.
pub proof fn lemma_grep_hits_bounded(pat: Seq<char>, ci: bool, lines: Seq<(nat, Seq<char>)>, quota: nat)
    ensures
        grep_hits(pat, ci, lines, quota).len() <= quota,
    decreases lines.len(),
{
    if quota > 0 && lines.len() > 0 {
        let l = strip_eol(lines[0].1);
        match line_match(pat, ci, l) {
            Some(_) => lemma_grep_hits_bounded(pat, ci, lines.drop_first(), (quota - 1) as nat),
            None => lemma_grep_hits_bounded(pat, ci, lines.drop_first(), quota),
        }
    }
}

/// Every line number of a hit that the line searcher gives is one of the
/// numbers it reported for the lines, where those fit in a `usize`.
proof fn lemma_grep_hit_lines_reported(pat: Seq<char>, ci: bool, lines: Seq<(nat, Seq<char>)>, quota: nat)
    requires
        forall|i: int| 0 <= i < lines.len() ==> #[trigger] lines[i].0 <= usize::MAX,
    ensures
        forall|h: int| #![trigger grep_hits(pat, ci, lines, quota)[h]] 0 <= h < grep_hits(pat, ci, lines, quota).len()
            ==> exists|k: int| 0 <= k < lines.len() && grep_hits(pat, ci, lines, quota)[h].0 == #[trigger] lines[k].0,
    decreases lines.len(),
{
    if quota > 0 && lines.len() > 0 {
        let rest = lines.drop_first();
        let l = strip_eol(lines[0].1);
        assert forall|i: int| 0 <= i < rest.len() implies #[trigger] rest[i].0 <= usize::MAX by {
            assert(rest[i] == lines[i + 1]);
        }
        match line_match(pat, ci, l) {
            Some(_) => {
                let q = (quota - 1) as nat;
                lemma_grep_hit_lines_reported(pat, ci, rest, q);
                let g = grep_hits(pat, ci, lines, quota);
                assert forall|h: int| #![trigger g[h]] 0 <= h < g.len()
                    implies exists|k: int| 0 <= k < lines.len() && g[h].0 == #[trigger] lines[k].0 by {
                    if h == 0 {
                        assert(g[0].0 == lines[0].0);
                    } else {
                        assert(g[h] == grep_hits(pat, ci, rest, q)[h - 1]);
                        let k = choose|k: int| 0 <= k < rest.len() && grep_hits(pat, ci, rest, q)[h - 1].0 == #[trigger] rest[k].0;
                        assert(rest[k] == lines[k + 1]);
                    }
                }
            },
            None => {
                lemma_grep_hit_lines_reported(pat, ci, rest, quota);
                let g = grep_hits(pat, ci, lines, quota);
                let t = grep_hits(pat, ci, rest, quota);
                assert(g == t);
                assert forall|h: int| #![trigger g[h]] 0 <= h < g.len()
                    implies exists|k: int| 0 <= k < lines.len() && g[h].0 == #[trigger] lines[k].0 by {
                    assert(t[h] == g[h]);
                    let k = choose|k: int| 0 <= k < rest.len() && t[h].0 == #[trigger] rest[k].0;
                    assert(rest[k] == lines[k + 1]);
                }
            },
        }
    }
}

/// Hit lines that start at 1 and rise strictly from one hit to the next.
pub open spec fn lines_rise(h: Seq<(nat, Seq<char>, nat, nat)>) -> bool {
    &&& forall|i: int| 0 <= i < h.len() ==> #[trigger] h[i].0 >= 1
    &&& forall|i: int, j: int| #![trigger h[i], h[j]] 0 <= i < j < h.len() ==> h[i].0 < h[j].0
}

/// The hits that the line searcher gives are numbered from 1 and come in
/// the order of their lines, one hit per line, wherever the line numbers it
/// reports fit in a `usize`.
pub proof fn lemma_grep_hits_rise(pat: Seq<char>, ci: bool, lines: Seq<(nat, Seq<char>)>, quota: nat)
    requires
        numbered(lines),
        forall|i: int| 0 <= i < lines.len() ==> #[trigger] lines[i].0 <= usize::MAX,
    ensures
        lines_rise(grep_hits(pat, ci, lines, quota)),
    decreases lines.len(),
{
    if quota > 0 && lines.len() > 0 {
        let rest = lines.drop_first();
        let l = strip_eol(lines[0].1);
        assert forall|i: int| 0 <= i < rest.len() implies #[trigger] rest[i].0 <= usize::MAX by {
            assert(rest[i] == lines[i + 1]);
        }
        assert forall|i: int| 0 <= i < rest.len() implies #[trigger] rest[i].0 >= 1 by {
            assert(rest[i] == lines[i + 1]);
        }
        assert forall|i: int, j: int| #![trigger rest[i], rest[j]] 0 <= i < j < rest.len() implies rest[i].0 < rest[j].0 by {
            assert(rest[i] == lines[i + 1]);
            assert(rest[j] == lines[j + 1]);
        }
        match line_match(pat, ci, l) {
            Some(_) => {
                let q = (quota - 1) as nat;
                lemma_grep_hits_rise(pat, ci, rest, q);
                lemma_grep_hit_lines_reported(pat, ci, rest, q);
                let g = grep_hits(pat, ci, lines, quota);
                let t = grep_hits(pat, ci, rest, q);
                assert(g[0].0 == lines[0].0);
                assert forall|i: int| 0 <= i < g.len() implies #[trigger] g[i].0 >= 1 by {
                    if i > 0 {
                        assert(g[i] == t[i - 1]);
                    }
                }
                assert forall|i: int, j: int| #![trigger g[i], g[j]] 0 <= i < j < g.len() implies g[i].0 < g[j].0 by {
                    assert(g[j] == t[j - 1]);
                    if i == 0 {
                        let k = choose|k: int| 0 <= k < rest.len() && t[j - 1].0 == #[trigger] rest[k].0;
                        assert(rest[k] == lines[k + 1]);
                    } else {
                        assert(g[i] == t[i - 1]);
                    }
                }
            },
            None => {
                lemma_grep_hits_rise(pat, ci, rest, quota);
            },
        }
    }
}

/// A hit that a whole-text scan finds is on a line numbered from 1.
pub proof fn lemma_scan_hits_from_line_one(pat: Seq<char>, ci: bool, t: Seq<char>, at: nat, quota: nat)
    ensures
        forall|i: int| 0 <= i < scan_hits(pat, ci, t, at, quota).len() ==> #[trigger] scan_hits(pat, ci, t, at, quota)[i].0 >= 1,
    decreases encode_utf8(t).len() - at,
{
    let n = encode_utf8(t).len();
    if quota == 0 || at >= n {
    } else {
        match regex_find_at(pat, ci, encode_utf8(t), at) {
            None => {},
            Some(m) => {
                let (s, e) = m;
                if at <= s && s <= e && e <= n {
                    match (char_index(t, s), char_index(t, e)) {
                        (Some(cs), Some(ce)) => {
                            let g = scan_hits(pat, ci, t, at, quota);
                            if quota <= 1 {
                            } else if e > s {
                                lemma_scan_hits_from_line_one(pat, ci, t, e, (quota - 1) as nat);
                                assert forall|i: int| 0 <= i < g.len() implies #[trigger] g[i].0 >= 1 by {
                                    if i > 0 {
                                        assert(g[i] == scan_hits(pat, ci, t, e, (quota - 1) as nat)[i - 1]);
                                    }
                                }
                            } else if ce < t.len() && e + utf8_width(t[ce as int]) <= n {
                                let a2 = e + utf8_width(t[ce as int]);
                                lemma_scan_hits_from_line_one(pat, ci, t, a2, (quota - 1) as nat);
                                assert forall|i: int| 0 <= i < g.len() implies #[trigger] g[i].0 >= 1 by {
                                    if i > 0 {
                                        assert(g[i] == scan_hits(pat, ci, t, a2, (quota - 1) as nat)[i - 1]);
                                    }
                                }
                            }
                        },
                        _ => {},
                    }
                }
            },
        }
    }
}

/// A file never yields more hits than the quota it is searched with, so a
/// search stops at its hit limit.
pub proof fn lemma_file_hits_bounded(pat: Seq<char>, ci: bool, b: Seq<u8>, quota: nat)
    ensures
        file_hits(pat, ci, b, quota).len() <= quota,
{
    if valid_utf8(b) {
        lemma_grep_hits_bounded(pat, ci, grep_lines(pat, ci, b), quota);
    } else {
        lemma_scan_hits_bounded(pat, ci, crate::fs_service::detect_spec(b).0, 0, quota);
    }
}

} // verus!
