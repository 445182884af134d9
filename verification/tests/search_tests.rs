use std::io::Write;

use mkdown::office::extract_text;
use mkdown::search::{
    classify, entry_kind, make_hit, plan_search, record_hit, rel_path, scan_text, search_text_bytes, FileKind,
    SearchHit, SearchPlan, SearchQuery,
};

/// A directory tree in memory: each file's path below the root and content.
type Files = Vec<(String, Vec<u8>)>;

fn search_file(plan: &SearchPlan, kind: FileKind, path: &str, root: &str, bytes: &[u8], quota: usize) -> Vec<SearchHit> {
    let rel = rel_path(path, root);
    match kind {
        FileKind::Text => search_text_bytes(bytes, &plan.matcher, path, &rel, quota).unwrap(),
        FileKind::Office => match extract_text(path, bytes) {
            Some(text) => scan_text(&text, &plan.matcher, path, &rel, quota).unwrap(),
            None => Vec::new(),
        },
    }
}

/// Runs a search over the files of `root`, one file after another in path
/// order.
fn run_search(q: &SearchQuery, files: &Files) -> (usize, Vec<SearchHit>) {
    let plan = plan_search(q, true).ok().unwrap();
    let mut sorted: Vec<&(String, Vec<u8>)> = files.iter().collect();
    sorted.sort_by(|a, b| a.0.cmp(&b.0));
    let mut hits = Vec::new();
    let mut total = 0usize;
    for (rel, bytes) in sorted {
        if total >= plan.max_results {
            break;
        }
        let path = format!("{}/{}", q.root, rel);
        let Some(kind) = entry_kind(&path, true, Some(bytes.len() as u64), plan.glob.as_deref()) else {
            continue;
        };
        for h in search_file(&plan, kind, &path, &q.root, bytes, plan.max_results - total) {
            let (t, _) = record_hit(total, plan.max_results);
            total = t;
            hits.push(h);
        }
    }
    (total, hits)
}

fn file(rel: &str, content: &str) -> (String, Vec<u8>) {
    (rel.to_string(), content.as_bytes().to_vec())
}

const ROOT: &str = "/tmp/.tmpS3arch";

#[test]
fn finds_hits_with_line_and_column() {
    let files = vec![
        file("a.md", "第一行\n审方中心建设方案\n第三行"),
        file("sub/b.md", "无命中\n也 mention 审方中心"),
        file("skip.txt", "审方中心"),
    ];

    let q = SearchQuery {
        root: ROOT.to_string(),
        query: "审方中心".into(),
        case_sensitive: false,
        is_regex: false,
        include_glob: Some("*.md".into()),
        max_results: None,
    };
    let (n, hits) = run_search(&q, &files);
    assert_eq!(n, 2);
    let a = hits.iter().find(|h| h.rel_path == "a.md").unwrap();
    assert_eq!(a.line, 2);
    assert_eq!(a.column, 1);
    assert_eq!(a.match_end - a.match_start, 4);
    let b = hits.iter().find(|h| h.rel_path == "sub/b.md").unwrap();
    assert_eq!(b.line, 2);
}

#[test]
fn case_insensitive_default() {
    let files = vec![file("x.md", "Hello Tauri")];
    let q = SearchQuery {
        root: ROOT.to_string(),
        query: "hello".into(),
        case_sensitive: false,
        is_regex: false,
        include_glob: None,
        max_results: None,
    };
    let (n, _) = run_search(&q, &files);
    assert_eq!(n, 1);

    let q2 = SearchQuery { case_sensitive: true, ..q };
    let (n2, _) = run_search(&q2, &files);
    assert_eq!(n2, 0);
}

#[test]
fn regex_mode_and_max_results() {
    let files = vec![file("r.md", "v1\nv22\nv333\nv4444")];
    let q = SearchQuery {
        root: ROOT.to_string(),
        query: "v\\d{3}".into(),
        case_sensitive: false,
        is_regex: true,
        include_glob: None,
        max_results: Some(2),
    };
    let (n, hits) = run_search(&q, &files);
    assert_eq!(n, 2);
    assert_eq!(hits[0].line, 3);
}

#[test]
fn gbk_and_dot_dirs_are_searchable_but_git_excluded() {
    let (enc, _, _) = encoding_rs::GBK.encode("审方中心建设方案\n");
    let files = vec![
        ("gbk.md".to_string(), enc.into_owned()),
        file(".NET互联网审方技术文档/inner.md", "隐藏目录里的审方中心\n"),
        file(".git/config.md", "审方中心\n"),
    ];

    let q = SearchQuery {
        root: ROOT.to_string(),
        query: "审方中心".into(),
        case_sensitive: false,
        is_regex: false,
        include_glob: Some("*.md".into()),
        max_results: None,
    };
    let (n, hits) = run_search(&q, &files);
    assert_eq!(n, 2, "GBK 文件与点开头目录内文件都应命中，.git 排除");
    assert!(hits.iter().any(|h| h.rel_path == "gbk.md"));
    assert!(hits.iter().any(|h| h.rel_path.contains(".NET互联网审方技术文档")));
}

#[test]
fn office_documents_are_searched_through_their_text() {
    let mut zw = zip::ZipWriter::new(std::io::Cursor::new(Vec::new()));
    zw.start_file("word/document.xml", zip::write::SimpleFileOptions::default()).unwrap();
    zw.write_all(
        "<w:document><w:body><w:p><w:t>第一段</w:t></w:p><w:p><w:t>  区域审方中心</w:t></w:p></w:body></w:document>"
            .as_bytes(),
    )
    .unwrap();
    let docx = zw.finish().unwrap().into_inner();
    let files = vec![("方案.docx".to_string(), docx)];
    let q = SearchQuery {
        root: ROOT.to_string(),
        query: "审方".into(),
        case_sensitive: false,
        is_regex: false,
        include_glob: None,
        max_results: None,
    };
    let (n, hits) = run_search(&q, &files);
    assert_eq!(n, 1);
    assert_eq!(hits[0].line, 2);
    assert_eq!(hits[0].line_text, "区域审方中心");
    assert_eq!(hits[0].match_start, 2);
    assert_eq!(hits[0].match_end, 4);
    assert_eq!(hits[0].column, 3);
    assert_eq!(hits[0].rel_path, "方案.docx");
}

#[test]
fn decoded_text_hits_are_trimmed_and_every_match_counts() {
    let (enc, _, _) = encoding_rs::GBK.encode("  这是一份关于审方工作的说明文档 审方\n第二行也提到审方");
    let files = vec![("g.txt".to_string(), enc.into_owned())];
    let q = SearchQuery {
        root: ROOT.to_string(),
        query: "审方".into(),
        case_sensitive: false,
        is_regex: false,
        include_glob: None,
        max_results: None,
    };
    let (n, hits) = run_search(&q, &files);
    assert_eq!(n, 3);
    assert_eq!(hits[0].line_text, "这是一份关于审方工作的说明文档 审方");
    assert_eq!((hits[0].line, hits[0].match_start, hits[0].match_end), (1, 6, 8));
    assert_eq!((hits[1].line, hits[1].match_start, hits[1].match_end), (1, 16, 18));
    assert_eq!((hits[2].line, hits[2].match_start, hits[2].match_end), (2, 6, 8));
}

#[test]
fn query_errors() {
    let q = SearchQuery {
        root: "/definitely/not/here".into(),
        query: "".into(),
        case_sensitive: false,
        is_regex: false,
        include_glob: None,
        max_results: None,
    };
    match plan_search(&q, false) {
        Err(e) => assert_eq!(e.message(), "invalid argument: 搜索词不能为空"),
        Ok(_) => panic!("empty query accepted"),
    }
    let q = SearchQuery { query: "x".into(), ..q };
    match plan_search(&q, false) {
        Err(e) => assert_eq!(e.message(), "path not found: 目录不存在: /definitely/not/here"),
        Ok(_) => panic!("missing root accepted"),
    }
    let q = SearchQuery { query: "(".into(), is_regex: true, ..q };
    match plan_search(&q, true) {
        Err(e) => {
            assert_eq!(e.code(), "INVALID_ARG");
            assert!(e.message().starts_with("invalid argument: 正则无效: "));
        }
        Ok(_) => panic!("bad regex accepted"),
    }
    let q = SearchQuery { is_regex: false, ..q };
    let plan = plan_search(&q, true).ok().unwrap();
    assert_eq!(plan.max_results, 2000);
    let q = SearchQuery { max_results: Some(0), ..q };
    assert_eq!(plan_search(&q, true).ok().unwrap().max_results, 1);
}

#[test]
fn classification_by_name() {
    assert!(matches!(classify("/w/a.MD", None), Some(FileKind::Text)));
    assert!(matches!(classify("/w/a.docx", None), Some(FileKind::Office)));
    assert!(matches!(classify("/w/a.XLS", None), Some(FileKind::Office)));
    assert!(classify("/w/a.png", None).is_none());
    assert!(classify("/w/noext", None).is_none());
    assert!(matches!(classify("/w/A.Md", Some("*.md")), Some(FileKind::Text)));
    assert!(classify("/w/a.docx", Some("*.md")).is_none());
    assert!(entry_kind("/w/node_modules/a.md", true, Some(1), None).is_none());
    assert!(entry_kind("/w/a.md", true, Some(8 * 1024 * 1024 + 1), None).is_none());
    assert!(matches!(entry_kind("/w/a.docx", true, Some(8 * 1024 * 1024 + 1), None), Some(FileKind::Office)));
    assert!(entry_kind("/w/a.md", false, None, None).is_none());
    assert_eq!(rel_path("/w/sub/b.md", "/w"), "sub/b.md");
    assert_eq!(rel_path("/x/b.md", "/w"), "");
}

#[test]
fn hit_text_is_cut_at_300_characters() {
    let line: Vec<char> = "字".repeat(301).chars().collect();
    let h = make_hit("/w/a.md", "a.md", 7, &line, 5, 6);
    assert_eq!(h.line, 7);
    assert_eq!(h.column, 6);
    assert_eq!(h.line_text.chars().count(), 301);
    assert!(h.line_text.ends_with('…'));
    let short: Vec<char> = "abc".chars().collect();
    assert_eq!(make_hit("/w/a.md", "a.md", 1, &short, 0, 1).line_text, "abc");
}

#[test]
fn hit_limit_stops_at_the_maximum() {
    assert_eq!(record_hit(0, 2), (1, false));
    assert_eq!(record_hit(1, 2), (2, true));
    assert_eq!(record_hit(5, 2), (6, true));
}

#[test]
fn match_inside_leading_space_has_no_column() {
    let q = SearchQuery {
        root: ROOT.to_string(),
        query: " +审方".into(),
        case_sensitive: false,
        is_regex: true,
        include_glob: None,
        max_results: None,
    };
    let plan = plan_search(&q, true).ok().unwrap();
    // the match begins in the two spaces that open the second line
    assert!(scan_text("第一行\n  审方中心", &plan.matcher, "/w/a.docx", "a.docx", 10).is_none());
    // a match after the leading white space keeps its column
    let q2 = SearchQuery { query: "审方".into(), is_regex: false, ..q };
    let plan2 = plan_search(&q2, true).ok().unwrap();
    let hits = scan_text("第一行\n  审方中心", &plan2.matcher, "/w/a.docx", "a.docx", 10).unwrap();
    assert_eq!((hits[0].line, hits[0].column, hits[0].match_start, hits[0].match_end), (2, 1, 0, 2));
    // valid UTF-8 goes through the line searcher, where no column is cut
    let hits = search_text_bytes("第一行\n  审方中心".as_bytes(), &plan.matcher, "/w/a.md", "a.md", 10).unwrap();
    assert_eq!(hits.len(), 1);
    assert_eq!((hits[0].line, hits[0].match_start), (2, 0));
}

#[test]
fn line_searcher_hits_rise_from_line_one() {
    let q = SearchQuery {
        root: ROOT.to_string(),
        query: "foo".into(),
        case_sensitive: true,
        is_regex: false,
        include_glob: None,
        max_results: None,
    };
    let plan = plan_search(&q, true).ok().unwrap();
    let text = "foo first\nnone\nfoo foo twice\n\nlast foo";
    let hits = search_text_bytes(text.as_bytes(), &plan.matcher, "/w/a.md", "a.md", 10).unwrap();
    let lines: Vec<usize> = hits.iter().map(|h| h.line).collect();
    // one hit per matching line, at its first match, numbered from 1
    assert_eq!(lines, vec![1, 3, 5]);
    assert_eq!((hits[1].column, hits[1].match_start, hits[1].match_end), (1, 0, 3));
    assert_eq!((hits[2].column, hits[2].match_start), (6, 5));
    // the whole-text scan reports every match, the first on line 1
    let hits = scan_text(text, &plan.matcher, "/w/a.docx", "a.docx", 10).unwrap();
    let lines: Vec<usize> = hits.iter().map(|h| h.line).collect();
    assert_eq!(lines, vec![1, 3, 3, 5]);
}
