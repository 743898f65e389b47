//! Document ingestion: content-based type detection, text extraction,
//! record assembly and batch bookkeeping for a full-text search index.

pub mod text;
pub mod filetype;
pub mod docx;
pub mod extract;
pub mod pdf;
pub mod document;
pub mod pipeline;
pub mod cli;
