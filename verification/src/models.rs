//! Values the commands hand to the user interface, and the persisted
//! settings.
use vstd::prelude::*;
use crate::fs_service::DetectedText;

verus! {

/// A text file read into the editor.
pub struct FileContent {
    pub path: String,
    pub content: String,
    /// "utf-8" | "utf-8-bom" | "gbk" | ...
    pub encoding: String,
    pub had_bom: bool,
    /// Whether the document may be written back in place: a non-UTF-8
    /// document (GBK, ...) has to be saved as UTF-8 under another name.
    pub is_utf8: bool,
    pub size: u64,
    pub mtime_ms: i64,
}

impl FileContent {
    /// The content of the file at `path` (`size` bytes, modified at
    /// `mtime_ms`) as decoding found it.
    pub fn from_detected(path: String, det: DetectedText, size: u64, mtime_ms: i64) -> (r: FileContent)
        ensures
            r.path == path,
            r.content == det.content,
            r.encoding == det.encoding,
            r.had_bom == det.had_bom,
            r.is_utf8 == det.is_utf8,
            r.size == size,
            r.mtime_ms == mtime_ms,
    {
        FileContent {
            path,
            content: det.content,
            encoding: det.encoding,
            had_bom: det.had_bom,
            is_utf8: det.is_utf8,
            size,
            mtime_ms,
        }
    }
}

/// Where and how much was written by a save.
pub struct SaveResult {
    pub path: String,
    pub size: u64,
    pub mtime_ms: i64,
}

/// What the file system says of a path.
pub struct FileMeta {
    pub path: String,
    pub size: u64,
    pub mtime_ms: i64,
    pub is_dir: bool,
    pub is_readonly: bool,
}

/// A recently opened file.
pub struct RecentFile {
    pub path: String,
    pub opened_at_ms: i64,
}

/// The user's settings, persisted as JSON. Every field has a default, so
/// a partial or older file still loads.
pub struct AppSettings {
    pub theme: String,
    pub font_size: u32,
    /// "edit" | "split" | "read"
    pub editor_mode: String,
    pub auto_save: bool,
    pub auto_save_delay_ms: u32,
    pub last_workspace: Option<String>,
    /// Workspaces used before, most recent first, without repeats, at most 10.
    pub recent_workspaces: Vec<String>,
    pub recent_files: Vec<RecentFile>,
    pub language: String,
    pub preview_theme: String,
    /// Content width: "narrow" | "medium" | "wide".
    pub read_layout: String,
    pub scroll_sync: bool,
    pub word_wrap: bool,
}

/// The content width used when the settings name none.
pub fn default_read_layout() -> (r: String)
    ensures
        r@ == "medium"@,
{
    String::from_str("medium")
}

impl Default for AppSettings {
    /// Light theme, 15 px font, split view, no auto-save (800 ms delay when
    /// turned on), no workspace or history, Chinese UI, default preview
    /// theme, medium width, scroll sync and word wrap on.
    fn default() -> (r: AppSettings)
        ensures
            r.theme@ == "light"@,
            r.font_size == 15,
            r.editor_mode@ == "split"@,
            !r.auto_save,
            r.auto_save_delay_ms == 800,
            r.last_workspace is None,
            r.recent_workspaces@.len() == 0,
            r.recent_files@.len() == 0,
            r.language@ == "zh-CN"@,
            r.preview_theme@ == "default"@,
            r.read_layout@ == "medium"@,
            r.scroll_sync,
            r.word_wrap,
    {
        AppSettings {
            theme: String::from_str("light"),
            font_size: 15,
            editor_mode: String::from_str("split"),
            auto_save: false,
            auto_save_delay_ms: 800,
            last_workspace: None,
            recent_workspaces: Vec::new(),
            recent_files: Vec::new(),
            language: String::from_str("zh-CN"),
            preview_theme: String::from_str("default"),
            read_layout: default_read_layout(),
            scroll_sync: true,
            word_wrap: true,
        }
    }
}

} // verus!
