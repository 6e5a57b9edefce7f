//! The logic of `ia-get`, which downloads the files of an item of the Internet Archive: the
//! credentials, the login, the metadata and the download plan, and the run that they make up.

pub mod auth;
pub mod client;
pub mod cookies;
pub mod error;
pub mod http;
pub mod laws;
pub mod login;
pub mod metadata;
pub mod plan;
pub mod run;
pub mod text;
