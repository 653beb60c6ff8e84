//! Custom resource model: the specs the operator reads and the statuses it
//! writes, as plain values.

use vstd::prelude::*;

pub mod auto_tag;
pub mod custom_format;
pub mod delay_profile;
pub mod download_client;
pub mod download_client_config;
pub mod import_list;
pub mod indexer;
pub mod indexer_config;
pub mod language_profile;
pub mod media_management_config;
pub mod metadata;
pub mod naming_config;
pub mod notification;
pub mod quality_definition;
pub mod quality_profile;
pub mod root_folder;
pub mod series;
pub mod sonarr;
pub mod tag;

verus! {

/// A key in a Kubernetes secret.
pub struct SecretKeySelector {
    /// Name of the secret
    pub name: String,
    /// Key in the secret
    pub key: String,
}

impl Clone for SecretKeySelector {
    fn clone(&self) -> (r: SecretKeySelector)
        ensures
            r == *self,
    {
        SecretKeySelector { name: self.name.clone(), key: self.key.clone() }
    }
}

/// Reference to a Sonarr instance used by sub-resources.
pub struct SonarrInstanceRef {
    /// Name of the Sonarr resource
    pub name: String,
    /// Namespace of the Sonarr resource (defaults to the referring resource's)
    pub namespace: Option<String>,
}

impl Clone for SonarrInstanceRef {
    fn clone(&self) -> (r: SonarrInstanceRef)
        ensures
            r == *self,
    {
        SonarrInstanceRef {
            name: self.name.clone(),
            namespace: match &self.namespace {
                Some(n) => Some(n.clone()),
                None => None,
            },
        }
    }
}

impl Default for SonarrInstanceRef {
    fn default() -> (r: SonarrInstanceRef)
        ensures
            r.name@ == Seq::<char>::empty(),
            r.namespace.is_none(),
    {
        SonarrInstanceRef { name: String::new(), namespace: None }
    }
}

/// Finalizer the operator puts on the resources it manages.
pub const FINALIZER: &'static str = "sonarr.io/finalizer";

/// Label key for the application name.
pub const LABEL_APP: &'static str = "app.kubernetes.io/name";

/// Label key for the instance name.
pub const LABEL_INSTANCE: &'static str = "app.kubernetes.io/instance";

/// Label key for the managing tool.
pub const LABEL_MANAGED_BY: &'static str = "app.kubernetes.io/managed-by";

} // verus!
