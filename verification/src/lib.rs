//! Core of the MkDown local Markdown editor: path authorisation, text
//! encoding detection, workspace tree shaping, Office text extraction,
//! full-text search scanning and the search-cache entry format.

pub mod error;
pub mod text;
pub mod num;
pub mod sort;
pub mod paths;
pub mod state;
pub mod office;
pub mod fs_service;
pub mod search;
pub mod search_cache;
pub mod workspace;
pub mod image;
pub mod models;
pub mod commands;
