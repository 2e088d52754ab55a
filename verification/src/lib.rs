pub mod app;
pub mod backend;
pub mod bitbucket;
pub mod chrome;
pub mod cli;
pub mod clock;
pub mod commands;
pub mod github;
pub mod i18n;
pub mod markdown;
pub mod order;
pub mod preflight;
pub mod review;
pub mod run_detail;
pub mod rows;
pub mod run_logs;
pub mod text;
pub mod theme;
pub mod update;
pub mod view;
