pub mod check_laws;
pub mod cli;
pub mod config;
pub mod email;
pub mod email_laws;
pub mod errors;
pub mod feed;
pub mod ids;
pub mod json;
pub mod laws;
pub mod mail;
pub mod mail_laws;
pub mod rss_sites;
pub mod site;
pub mod storage_laws;
pub mod task;
pub mod templates;
pub mod text;
pub mod time;
pub mod webserver;
