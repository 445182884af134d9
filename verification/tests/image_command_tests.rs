use std::path::Path;

use mkdown::commands::{
    check_dir, check_exists, check_image_doc, check_parent, check_readable, check_url, collect_file_args,
    default_export_name, lacks_extension,
};
use mkdown::error::AppError;
use mkdown::image::{normalize_ext, plan_image_with_id, plan_pasted_image, saved_image, SavedImage};
use mkdown::models::{default_read_layout, AppSettings};

/// Plans saving pasted image data next to the document, as the command
/// does, and returns where the image goes with the bytes to write.
fn save_pasted_image(doc_path: &Path, data: &str, ext: &str) -> Result<(SavedImage, Vec<u8>), AppError> {
    let parent = doc_path.parent();
    let plan = plan_pasted_image(parent.is_some(), data, ext)?;
    let abs = parent.unwrap().join("assets").join(&plan.file_name);
    let saved = saved_image(abs.to_string_lossy().into_owned(), &plan);
    Ok((saved, plan.bytes))
}

#[test]
fn saves_png_and_returns_relative_path() {
    let doc = Path::new("/tmp/.tmpIm4ge/方案.md");
    // 1x1 PNG
    let png_b64 = "iVBORw0KGgoAAAANSUhEUgAAAAEAAAABCAYAAAAfFcSJAAAADUlEQVR42mP8z8BQDwAEhQGAhKmMIQAAAABJRU5ErkJggg==";
    let (saved, bytes) = save_pasted_image(doc, png_b64, "png").ok().unwrap();
    assert!(saved.rel_path.starts_with("./assets/img-"));
    assert!(saved.rel_path.ends_with(".png"));
    assert_eq!(saved.abs_path, format!("/tmp/.tmpIm4ge/assets/{}", saved.file_name));
    assert_eq!(&bytes[1..4], b"PNG");
}

#[test]
fn rejects_bad_ext_and_bad_base64() {
    let doc = Path::new("/tmp/.tmpIm4ge/a.md");
    assert!(save_pasted_image(doc, "aaaa", "exe").is_err());
    assert!(save_pasted_image(doc, "!!!!not-base64!!!", "png").is_err());
}

#[test]
fn image_plan_in_detail() {
    let p = plan_image_with_id(true, "AQID", ".PNG", "0123456789abcdef0123456789abcdef").ok().unwrap();
    assert_eq!(p.bytes, vec![1, 2, 3]);
    assert_eq!(p.file_name, "img-0123456789abcdef0123456789abcdef.png");
    assert_eq!(p.rel_path, "./assets/img-0123456789abcdef0123456789abcdef.png");
    assert_eq!(normalize_ext("..JpEg"), vec!['j', 'p', 'e', 'g']);
    match plan_image_with_id(true, "AQID", "exe", "id") {
        Err(e) => assert_eq!(e.message(), "unsupported operation: 不支持的图片格式: exe"),
        Ok(_) => panic!(),
    }
    match plan_image_with_id(false, "AQID", "png", "id") {
        Err(e) => assert_eq!(e.message(), "invalid argument: 文档没有父目录，请先保存文档"),
        Ok(_) => panic!(),
    }
    match plan_image_with_id(true, "", "png", "id") {
        Err(e) => assert_eq!(e.message(), "invalid argument: 图片数据为空"),
        Ok(_) => panic!(),
    }
    match plan_image_with_id(true, "!!", "png", "id") {
        Err(e) => assert!(e.message().starts_with("invalid argument: 图片数据 Base64 解码失败: ")),
        Ok(_) => panic!(),
    }
    let q = plan_pasted_image(true, "AQID", "gif").ok().unwrap();
    assert_eq!(q.file_name.len(), "img-".len() + 32 + ".gif".len());
    assert!(q.file_name[4..36].chars().all(|c| c.is_ascii_hexdigit() && !c.is_ascii_uppercase()));
    assert!(check_image_doc("").is_err());
    assert!(check_image_doc("/w/a.md").is_ok());
}

#[test]
fn default_settings_shape() {
    let s = AppSettings::default();
    assert_eq!(s.theme, "light");
    assert_eq!(s.editor_mode, "split");
    assert_eq!(s.auto_save_delay_ms, 800);
    assert!(s.recent_files.is_empty());
}

#[test]
fn default_settings_in_full() {
    let s = AppSettings::default();
    assert_eq!(s.font_size, 15);
    assert!(!s.auto_save);
    assert!(s.last_workspace.is_none());
    assert!(s.recent_workspaces.is_empty());
    assert_eq!(s.language, "zh-CN");
    assert_eq!(s.preview_theme, "default");
    assert_eq!(s.read_layout, "medium");
    assert!(s.scroll_sync && s.word_wrap);
    assert_eq!(default_read_layout(), "medium");
}

#[test]
fn file_arguments_skip_program_and_switches() {
    let argv: Vec<String> = ["mkdown.exe", "--flag", "/w/a.md", "/w/missing.md", "-x", "/w/b.docx"]
        .iter()
        .map(|s| s.to_string())
        .collect();
    let is_file = vec![true, true, true, false, true, true];
    assert_eq!(collect_file_args(&argv, &is_file), vec!["/w/a.md".to_string(), "/w/b.docx".to_string()]);
    assert!(collect_file_args(&vec![], &vec![]).is_empty());
    assert!(collect_file_args(&vec!["/w/a.md".to_string()], &vec![true]).is_empty());
}

#[test]
fn links_must_be_web_or_mail() {
    assert!(check_url("https://example.com/a?b=1&c=2").is_ok());
    assert!(check_url("HTTP://EXAMPLE.COM").is_ok());
    assert!(check_url("mailto:a@b.c").is_ok());
    match check_url("file:///etc/passwd") {
        Err(e) => assert_eq!(e.message(), "invalid argument: 仅支持 http/https/mailto 链接: file:///etc/passwd"),
        Ok(()) => panic!("file link accepted"),
    }
    assert!(check_url("javascript:alert(1)").is_err());
}

#[test]
fn export_names_and_extensions() {
    assert_eq!(default_export_name("/w/方案.md", "html"), "方案.html");
    assert_eq!(default_export_name("/w/archive.tar.gz", "html"), "archive.tar.html");
    assert_eq!(default_export_name("", "html"), "export.html");
    assert!(lacks_extension("/w/notes"));
    assert!(!lacks_extension("/w/notes.md"));
    assert!(lacks_extension("/w/.bashrc"));
}

#[test]
fn command_preconditions() {
    assert!(check_readable("/w/a.md", true, 10).is_ok());
    assert_eq!(check_readable("/w/a.md", false, 10).err().unwrap().message(), "path not found: 文件不存在: /w/a.md");
    assert_eq!(check_readable("/w/a.md", true, 8388609).err().unwrap().code(), "UNSUPPORTED");
    assert_eq!(check_exists("/w/x", false).err().unwrap().message(), "path not found: 路径不存在: /w/x");
    assert!(check_exists("/w/x", true).is_ok());
    assert_eq!(check_dir("/w/x", false).err().unwrap().message(), "path not found: 目录不存在: /w/x");
    assert!(check_dir("/w/x", true).is_ok());
    assert!(check_parent("/w/x.md", true).is_ok());
    assert_eq!(check_parent("/", false).err().unwrap().message(), "invalid argument: 路径没有父目录: /");
}
