pub mod aria2;
pub mod attempt;
pub mod classifier;
pub mod clock;
pub mod download;
pub mod events;
pub mod ffmpeg;
pub mod files;
pub mod numbers;
pub mod output;
pub mod platform;
pub mod progress;
pub mod regexes;
pub mod resolve;
pub mod session;
pub mod strategy;
pub mod text;
pub mod unicode;
pub mod yt_command;
pub mod yt_dlp;
pub mod yt_output;
pub mod yt_run;
