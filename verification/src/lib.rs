//! Downloading YouTube audio and splitting it into chapter tracks:
//! the verified text, chapter, configuration and interface-state logic.

pub mod text;
pub mod pattern;
pub mod utils;
pub mod ui;
pub mod audio;
pub mod chapters;
pub mod chapters_from_description;
pub mod chapter_refinement;
pub mod commands;
pub mod cookie_helper;
pub mod ytdlp_error_parser;
pub mod error;
pub mod error_handler;
pub mod config;
pub mod config_wizard;
pub mod dependency;
pub mod playlist;
pub mod temp_file;
pub mod progress;
pub mod downloader;
pub mod yt_dlp_progress;
pub mod yt_dlp_update;
pub mod ytdlp_helper;
pub mod pipeline;
pub mod tui;

pub use chapters::Chapter;
pub use config::Config;
pub use downloader::VideoInfo;
pub use error::YtcsError;
