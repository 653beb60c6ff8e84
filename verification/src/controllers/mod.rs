//! Reconciliation logic for the Sonarr instance and its sub-resources.

pub mod utils;
pub mod deployment;
pub mod traits;
pub mod sonarr;
pub mod tag;
pub mod quality_profile;
pub mod language_profile;
pub mod auto_tag;
pub mod custom_format;
pub mod indexer;
pub mod download_client;
pub mod notification;
pub mod import_list;
pub mod metadata;
pub mod delay_profile;
pub mod root_folder;
pub mod quality_definition;
pub mod series;
pub mod singleton;
pub mod naming_config;
pub mod indexer_config;
pub mod download_client_config;
pub mod media_management_config;
