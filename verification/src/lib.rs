//! Verified core of the Quill reader: prompt construction, library
//! bookkeeping, pagination, and the sync/iCloud decision logic.

pub mod text;
pub mod prompts;
pub mod assist;
pub mod models;
pub mod codec;
pub mod paths;
pub mod library;
pub mod query;
pub mod chats;
pub mod icloud;
pub mod sync;
pub mod container;
pub mod ebook;
pub mod stream;
pub mod mcp;
pub mod records;
pub mod platform;
pub mod settings;
pub mod schema;
pub mod lww;
pub mod json_config;
pub mod codex_config;
pub mod window;
pub mod paging;
