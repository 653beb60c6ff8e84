//! The first, minimal version of the `Sonarr` resource (group version
//! `devopsarr.io/v1`).

pub mod sonarr;
