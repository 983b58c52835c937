//! Verified core of an SSH host browser: the model of `ssh_config` host
//! blocks, the passes that resolve wildcard patterns, the mapping to flat
//! host records, and the text processing used to read and write config files.

pub mod text;
pub mod entry_type;
pub mod pattern;
pub mod config_host;
pub mod host_vec;
pub mod host;
pub mod config_error;
pub mod config_file;
pub mod command;
pub mod ui_logic;
pub mod host_edit;
pub mod order;
pub mod listing;
pub mod view;
pub mod config_laws;
pub mod form_laws;
pub mod merge_laws;
pub mod field_laws;
