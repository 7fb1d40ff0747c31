//! Verified core of the Afrasyab Telegram-to-Drive bot.
pub mod classify;
pub mod commands;
pub mod config;
pub mod crypto;
pub mod download;
pub mod drive_reply;
pub mod filename;
pub mod folder_flow;
pub mod format_queue;
pub mod incoming;
pub mod job;
pub mod job_run;
pub mod oauth_flow;
pub mod replies;
pub mod runner;
pub mod sanitize;
pub mod playlist;
pub mod playlist_queue;
pub mod records;
pub mod scan;
pub mod scratch_disk;
pub mod status;
pub mod text;
pub mod upload;
pub mod weburl;
pub mod worker;
pub mod ytdlp;
pub mod ytdlp_errors;
