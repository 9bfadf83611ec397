pub mod commands;
pub mod download;
pub mod entry;
pub mod navigate;
pub mod error;
pub mod hashing;
pub mod options;
pub mod output;
pub mod paths;
pub mod plan;
pub mod remote_path;
pub mod resume;
pub mod shell;
pub mod text;
pub mod transfer;
