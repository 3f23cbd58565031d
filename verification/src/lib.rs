pub mod text;
pub mod thinking;
pub mod pattern;
pub mod security;
pub mod chat;
pub mod queue;
pub mod models;
pub mod sync_plan;
pub mod conflict;
pub mod crypto;
pub mod key_file;
pub mod remote_guard;
pub mod oauth;
pub mod client;
pub mod connection;
pub mod endpoints;
pub mod service;
pub mod session_auth;
pub mod sync_run;
pub mod bundle;
pub mod certificate_notifier;
pub mod certificate_form;
pub mod device_flow;
pub mod blob_vault;
pub mod pkce_flow;
pub mod drive_api;
pub mod gist_vault;
pub mod webdav;
pub mod sync_server_api;
