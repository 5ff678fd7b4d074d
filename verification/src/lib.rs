//! Account, credential, mail, calendar and drive logic of a Zoho command line client.
pub mod calendar;
pub mod cli;
pub mod commands;
pub mod credential_store;
pub mod disk;
pub mod error;
pub mod framing;
pub mod http;
pub mod install;
pub mod account_store;
pub mod json;
pub mod mail;
pub mod model;
pub mod oauth;
pub mod output;
pub mod paths;
pub mod poller;
pub mod prompts;
pub mod resources;
pub mod runtime_context;
pub mod session;
pub mod skills;
pub mod sorted_map;
pub mod text;
pub mod tool_calls;
pub mod tools;
pub mod update;
pub mod urls;
pub mod versions;
