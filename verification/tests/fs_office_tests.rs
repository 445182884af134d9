use std::io::Write;

use mkdown::fs_service::{
    check_text_size, detect_text, encode_for_write, preview_kind, sniff_is_text, text_decision, TextDecision,
    MAX_TEXT_BYTES, SNIFF_BYTES,
};
use mkdown::office::{decode_entities, extract_lines, extract_text, ole_lines, xml_to_text, OLE_HEADER_BYTES};

/// Whether a file opens in the editor: `content` is what the file holds,
/// nothing when it does not exist. Name and size first, content sniff only
/// when they decide nothing.
fn is_text_file(path: &str, content: Option<&[u8]>) -> bool {
    let Some(bytes) = content else {
        return false;
    };
    match text_decision(path, true, bytes.len() as u64) {
        TextDecision::Text => true,
        TextDecision::NotText => false,
        TextDecision::Sniff => sniff_is_text(&bytes[..bytes.len().min(SNIFF_BYTES)]),
    }
}

#[test]
fn utf8_roundtrip() {
    let det = detect_text("# 标题\n内容".as_bytes());
    assert!(det.is_utf8 && !det.had_bom);
    assert_eq!(det.encoding, "utf-8");
    assert_eq!(det.content, "# 标题\n内容");
}

#[test]
fn bom_is_detected_and_kept() {
    let mut bytes = vec![0xEF, 0xBB, 0xBF];
    bytes.extend_from_slice("BOM 文档".as_bytes());
    let det = detect_text(&bytes);
    assert!(det.had_bom && det.is_utf8);
    assert_eq!(det.encoding, "utf-8-bom");
    assert_eq!(det.content, "BOM 文档");
}

#[test]
fn gbk_is_detected() {
    let (bytes, _, _) = encoding_rs::GBK.encode("这是一份 GBK 编码的文档");
    let det = detect_text(&bytes);
    assert!(!det.is_utf8);
    assert_eq!(det.content, "这是一份 GBK 编码的文档");
}

#[test]
fn utf16_boms_are_detected() {
    let mut le = vec![0xFF, 0xFE];
    for u in "文档".encode_utf16() {
        le.extend_from_slice(&u.to_le_bytes());
    }
    let det = detect_text(&le);
    assert_eq!(det.encoding, "utf-16le");
    assert_eq!(det.content, "文档");
    assert!(det.had_bom && !det.is_utf8);
    let mut be = vec![0xFE, 0xFF];
    for u in "文档".encode_utf16() {
        be.extend_from_slice(&u.to_be_bytes());
    }
    let det = detect_text(&be);
    assert_eq!(det.encoding, "utf-16be");
    assert_eq!(det.content, "文档");
}

#[test]
fn saved_text_reads_back_the_same() {
    for keep_bom in [false, true] {
        let bytes = encode_for_write("第一行\r\n# two", keep_bom);
        assert_eq!(bytes.len(), "第一行\r\n# two".len() + if keep_bom { 3 } else { 0 });
        let det = detect_text(&bytes);
        assert_eq!(det.content, "第一行\r\n# two");
        assert_eq!(det.had_bom, keep_bom);
        assert!(det.is_utf8);
        assert_eq!(det.encoding, if keep_bom { "utf-8-bom" } else { "utf-8" });
    }
}

#[test]
fn text_file_detection() {
    let docx: &[u8] = b"PK\x03\x04junk\x00\x01";
    let big_log = "x".repeat(64);
    assert!(is_text_file("/w/a.md", Some("# 标题".as_bytes())), "md 应为文本");
    assert!(!is_text_file("/w/b.docx", Some(docx)), "docx 应走系统默认程序");
    assert!(is_text_file("/w/noext", Some("plain text here".as_bytes())), "无扩展名靠嗅探判为文本");
    assert!(!is_text_file("/w/raw.bin", Some(&[0u8, 1, 2, 3])), "含 NUL 应判二进制");
    assert!(is_text_file("/w/big.log", Some(big_log.as_bytes())), "log 是已知文本扩展名");
    assert!(!is_text_file("/w/missing.md", None), "不存在的文件不算文本");
}

#[test]
fn text_decision_by_name() {
    assert!(matches!(text_decision("/w/README", true, 10), TextDecision::Text));
    assert!(matches!(text_decision("/w/Makefile", true, 10), TextDecision::Text));
    assert!(matches!(text_decision("/w/notes.MD", true, 10), TextDecision::Text));
    assert!(matches!(text_decision("/w/x.PDF", true, 10), TextDecision::NotText));
    assert!(matches!(text_decision("/w/x.unknown", true, 10), TextDecision::Sniff));
    assert!(matches!(text_decision("/w/dir", false, 0), TextDecision::NotText));
    assert!(matches!(text_decision("/w/a.md", true, MAX_TEXT_BYTES + 1), TextDecision::NotText));
    assert!(matches!(text_decision("/w/a.md", true, MAX_TEXT_BYTES), TextDecision::Text));
}

#[test]
fn sniff_rules() {
    assert!(sniff_is_text(&[]));
    assert!(sniff_is_text(&[0xFF, 0xFE, 0, 0x41]));
    assert!(!sniff_is_text(&[0x41, 0, 0x42]));
    assert!(sniff_is_text("纯文本".as_bytes()));
    let (gbk, _, _) = encoding_rs::GBK.encode("这是一份 GBK 编码的日志文件，内容足够长以便识别编码");
    assert!(sniff_is_text(&gbk));
}

#[test]
fn preview_kind_detection() {
    let p = |n: &str| format!("/tmp/.tmpQ1w2E3/{n}");
    assert_eq!(preview_kind(&p("a.docx")), Some("docx"), "docx 应进应用内预览");
    assert_eq!(preview_kind(&p("b.XLSX")), Some("xlsx"), "扩展名大小写不敏感");
    assert_eq!(preview_kind(&p("c.png")), Some("image"), "WebView2 可解码图片应进预览");
    assert_eq!(preview_kind(&p("d.tiff")), None, "浏览器不能渲染的格式不进预览");
    assert_eq!(preview_kind(&p("e.doc")), None, "遗留 OLE 格式维持系统打开");
    assert_eq!(preview_kind(&p("noext")), None, "无扩展名不预览");
    assert_eq!(preview_kind(&p("f.xlsm")), Some("xlsx"));
}

#[test]
fn oversized_file_is_not_text() {
    let huge = vec![b'a'; (MAX_TEXT_BYTES + 1) as usize];
    assert!(!is_text_file("/w/huge.md", Some(&huge)));
}

#[test]
fn size_gate_message() {
    assert!(check_text_size(MAX_TEXT_BYTES).is_ok());
    match check_text_size(MAX_TEXT_BYTES + 1) {
        Err(e) => {
            assert_eq!(e.code(), "UNSUPPORTED");
            assert_eq!(
                e.message(),
                "unsupported operation: 文件过大（8388609 字节，上限 8388608 字节）：请用系统默认程序打开"
            );
        }
        Ok(()) => panic!("oversized file accepted"),
    }
}

#[test]
fn strips_tags_and_decodes_entities() {
    let xml = "<w:p><w:r><w:t>审方&amp;点评</w:t></w:r><w:r><w:t>中心</w:t></w:r></w:p>";
    let t = xml_to_text(xml, &["w:p"]);
    assert!(t.contains("审方&点评"), "实体未解码: {t:?}");
    assert!(t.contains('\n'), "段落边界未成行: {t:?}");
}

#[test]
fn entities_are_decoded() {
    assert_eq!(decode_entities("a &lt;b&gt; &quot;c&quot; &apos;d&apos; &#20013;&#x6587;"), "a <b> \"c\" 'd' 中文");
    assert_eq!(decode_entities("no entities here"), "no entities here");
    assert_eq!(decode_entities("&unknown; &amp"), " &amp");
}

fn ole_fixture(text: &str) -> Vec<u8> {
    let mut bytes = vec![0xD0, 0xCF, 0x11, 0xE0, 0xA1, 0xB1, 0x1A, 0xE1];
    bytes.resize(OLE_HEADER_BYTES, 0);
    for u in text.encode_utf16() {
        bytes.extend_from_slice(&u.to_le_bytes());
    }
    bytes
}

#[test]
fn ole_metadata_noise_is_filtered() {
    let bytes = ole_fixture("Root Entry WordDocument Microsoft Office Word");
    assert!(ole_lines(&bytes).is_empty(), "ASCII 元数据应被过滤");
}

#[test]
fn ole_header_magic_does_not_leak_into_body() {
    let bytes = ole_fixture("区域审方中心建设方案");
    assert_eq!(ole_lines(&bytes), vec!["区域审方中心建设方案"]);
}

#[test]
fn ole_utf16_body_text_is_extractable() {
    let bytes = ole_fixture("区域审方中心管理系统功能技术参数表\r采用微服务架构");
    assert_eq!(ole_lines(&bytes), vec!["区域审方中心管理系统功能技术参数表", "采用微服务架构"]);
}

fn docx_bytes(part: &str, xml: &str) -> Vec<u8> {
    let mut zw = zip::ZipWriter::new(std::io::Cursor::new(Vec::new()));
    zw.start_file(part, zip::write::SimpleFileOptions::default()).unwrap();
    zw.write_all(xml.as_bytes()).unwrap();
    zw.finish().unwrap().into_inner()
}

#[test]
fn docx_end_to_end() {
    let xml = r#"<?xml version="1.0"?><w:document><w:body><w:p><w:r><w:t>区域审方中心建设方案</w:t></w:r></w:p><w:p><w:r><w:t>合理用药监测与药师审方干预</w:t></w:r></w:p></w:body></w:document>"#;
    let bytes = docx_bytes("word/document.xml", xml);
    let lines = extract_lines("/tmp/.tmpD0cX1/t.docx", &bytes).unwrap();
    assert_eq!(lines, vec!["区域审方中心建设方案", "合理用药监测与药师审方干预"]);
    let text = extract_text("/tmp/.tmpD0cX1/t.docx", &bytes).unwrap();
    assert_eq!(text, "区域审方中心建设方案\n合理用药监测与药师审方干预\n");
}

#[test]
fn spreadsheet_rows_and_slides() {
    let xlsx = docx_bytes(
        "xl/sharedStrings.xml",
        "<sst><si><t>药品名称</t></si><si><t>剂量 &amp; 用法</t></si></sst>",
    );
    assert_eq!(extract_lines("/w/a.XLSX", &xlsx).unwrap(), vec!["药品名称", "剂量 & 用法"]);
    let pptx = docx_bytes("ppt/slides/slide1.xml", "<p:sld><a:p><a:t>标题</a:t></a:p><a:p><a:t>要点</a:t></a:p></p:sld>");
    assert_eq!(extract_lines("/w/a.pptx", &pptx).unwrap(), vec!["标题", "要点"]);
}

#[test]
fn unsupported_or_broken_documents_yield_nothing() {
    assert!(extract_lines("/w/a.txt", b"plain").is_none());
    assert!(extract_lines("/w/a.docx", b"not a zip").is_none());
    assert!(extract_lines("/w/a.doc", b"{\\rtf1 not ole}").is_none());
    assert!(extract_text("/w/noext", b"x").is_none());
}

#[test]
fn visitor_sees_the_first_lines() {
    let bytes = ole_fixture("区域审方中心管理系统功能技术参数表\r采用微服务架构\r第三段落内容");
    let (first, any) = mkdown::office::for_each_line("/w/a.DOC", &bytes, 2);
    assert!(any);
    assert_eq!(first, vec!["区域审方中心管理系统功能技术参数表", "采用微服务架构"]);
    let (all, _) = mkdown::office::for_each_line("/w/a.doc", &bytes, 100);
    assert_eq!(all.len(), 3);
    let (none, any) = mkdown::office::for_each_line("/w/a.txt", b"plain", 5);
    assert!(none.is_empty() && !any);
}

#[test]
fn backslash_in_unix_names() {
    assert_eq!(preview_kind("/w/a\\b.PNG"), Some("image"));
    assert_eq!(mkdown::commands::default_export_name("/w/a\\b.md", "html"), "a\\b.html");
    assert_eq!(mkdown::commands::default_export_name("C:\\w\\a.md", "html"), "a.html");
}
