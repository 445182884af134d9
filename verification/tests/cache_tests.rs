use std::io::Write;

use mkdown::office::extract_text;
use mkdown::search_cache::{cache_entry, entry_name, header, payload_if_valid, CacheGc, CacheRoot, MAX_CACHE_BYTES};

/// A cache directory holding at most one entry.
struct Cache {
    entry: Option<String>,
}

/// The Office text of a file with content `bytes` and fingerprint `fp`,
/// through the cache.
fn office_text(cache: &mut Cache, path: &str, bytes: &[u8], fp: (u128, u64)) -> Option<String> {
    if let Some(cached) = &cache.entry {
        if let Some(text) = payload_if_valid(cached, fp) {
            return Some(text);
        }
    }
    let text = extract_text(path, bytes)?;
    cache.entry = Some(cache_entry(fp, &text));
    Some(text)
}

#[test]
fn cache_hit_and_invalidation() {
    let mut roots = CacheRoot::new();
    roots.set_test_cache_root("/tmp/.tmpC4che");
    assert_eq!(roots.cache_root(Some("/home/u/.cache/mkdown/search-cache".to_string())), Some("/tmp/.tmpC4che".to_string()));
    let mut cache = Cache { entry: None };
    let path = "/tmp/.tmpC4che/t.docx";
    let mut zw = zip::ZipWriter::new(std::io::Cursor::new(Vec::new()));
    zw.start_file("word/document.xml", zip::write::SimpleFileOptions::default()).unwrap();
    zw.write_all(r#"<w:document><w:body><w:p><w:t>区域审方中心建设方案</w:t></w:p></w:body></w:document>"#.as_bytes())
        .unwrap();
    let docx = zw.finish().unwrap().into_inner();
    let fp = (1727078400000u128, docx.len() as u64);

    let first = office_text(&mut cache, path, &docx, fp).expect("应抽取到正文");
    assert!(first.contains("区域审方中心建设方案"));

    // unchanged fingerprint: the cached text is used even without the file
    let second = office_text(&mut cache, path, b"", fp).expect("应命中缓存");
    assert_eq!(first, second);

    // rewritten file: new time and size, the old entry is stale
    let changed: &[u8] = b"changed";
    let fp2 = (1727078400020u128, changed.len() as u64);
    assert!(office_text(&mut cache, path, changed, fp2).is_none(), "内容变更后旧缓存必须失效");
}

#[test]
fn header_format() {
    assert_eq!(header((1727078400000, 42)), "v1 1727078400000 42\n");
    assert_eq!(header((0, 0)), "v1 0 0\n");
    assert_eq!(header((u128::MAX, u64::MAX)), format!("v1 {} {}\n", u128::MAX, u64::MAX));
}

#[test]
fn entry_round_trip_and_staleness() {
    let e = cache_entry((5, 7), "正文\n第二行");
    assert_eq!(payload_if_valid(&e, (5, 7)), Some("正文\n第二行".to_string()));
    assert_eq!(payload_if_valid(&e, (5, 8)), None);
    assert_eq!(payload_if_valid(&e, (6, 7)), None);
    let empty = cache_entry((1, 2), "");
    assert_eq!(payload_if_valid(&empty, (1, 2)), Some(String::new()));
}

#[test]
fn malformed_headers_are_stale() {
    assert_eq!(payload_if_valid("v1 5 7", (5, 7)), None);
    assert_eq!(payload_if_valid("v2 5 7\nbody", (5, 7)), None);
    assert_eq!(payload_if_valid("v1 5\nbody", (5, 7)), None);
    assert_eq!(payload_if_valid("v1 x 7\nbody", (5, 7)), None);
    assert_eq!(payload_if_valid("v1 5 -7\nbody", (5, 7)), None);
    assert_eq!(payload_if_valid("v1 5 18446744073709551616\nbody", (5, 0)), None);
    assert_eq!(payload_if_valid("v1 +5 7 extra\nbody", (5, 7)), Some("body".to_string()));
    assert_eq!(payload_if_valid("v1 005 7\n", (5, 7)), Some(String::new()));
}

#[test]
fn entry_names_are_16_hex_digits() {
    assert_eq!(entry_name(0), "0000000000000000");
    assert_eq!(entry_name(0xdeadbeef), "00000000deadbeef");
    assert_eq!(entry_name(u64::MAX), "ffffffffffffffff");
    assert_eq!(entry_name(0x0123456789abcdef), format!("{:016x}", 0x0123456789abcdefu64));
}

#[test]
fn cache_root_defaults_without_override() {
    let roots = CacheRoot::new();
    assert_eq!(roots.cache_root(Some("/c/mkdown/search-cache".to_string())), Some("/c/mkdown/search-cache".to_string()));
    assert_eq!(roots.cache_root(None), None);
}

fn run_gc(sizes: Vec<u64>, mtimes: Vec<u128>, fail: &[usize]) -> Vec<usize> {
    let mut gc = CacheGc::plan(sizes, &mtimes);
    let mut removed = Vec::new();
    while let Some(i) = gc.next_victim() {
        let ok = !fail.contains(&i);
        if ok {
            removed.push(i);
        }
        gc.record(ok);
    }
    removed
}

#[test]
fn gc_removes_oldest_until_within_budget() {
    let mb = 1024 * 1024;
    // 900 MiB in four entries; the two oldest (300 + 200 MiB) must go.
    let sizes = vec![100 * mb, 300 * mb, 200 * mb, 300 * mb];
    let mtimes = vec![40, 10, 20, 30];
    assert_eq!(run_gc(sizes.clone(), mtimes.clone(), &[]), vec![1]);
    // Within budget: nothing is removed.
    assert!(run_gc(vec![MAX_CACHE_BYTES], vec![1], &[]).is_empty());
    // A failed removal frees nothing; the next oldest goes instead.
    assert_eq!(run_gc(sizes, mtimes, &[1]), vec![2]);
}

#[test]
fn gc_keeps_listing_order_for_equal_times() {
    let mb = 1024 * 1024;
    let sizes = vec![500 * mb, 500 * mb, 500 * mb];
    let mtimes = vec![7, 7, 7];
    assert_eq!(run_gc(sizes, mtimes, &[]), vec![0, 1]);
}
