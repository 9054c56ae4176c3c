//! Decision logic of the DeepSeek Harness desktop shell.
pub mod archive;
pub mod archive_laws;
pub mod boot;
pub mod boot_laws;
pub mod boot_way;
pub mod bridge;
pub mod bridge_laws;
pub mod disk;
pub mod download;
pub mod download_laws;
pub mod figures_laws;
pub mod flow_laws;
pub mod force;
pub mod git;
pub mod git_laws;
pub mod proxy;
pub mod proxy_laws;
pub mod runtime;
pub mod runtime_laws;
pub mod script;
pub mod script_laws;
pub mod search;
pub mod server;
pub mod server_laws;
pub mod settings;
pub mod settings_laws;
pub mod steps;
pub mod text;
pub mod text_laws;
pub mod tools;
pub mod tools_laws;
pub mod update_laws;
pub mod updates;
pub mod upgrade;
pub mod wording_laws;
