//! Binding of typed request parameters to URL templates.
//!
//! A path template such as `/api/v2/cluster/{cluster_id}/query` is analysed
//! once against the request type's declared fields, giving a reusable
//! [`plan::BindingPlan`]. Binding a plan to a record of field values and a
//! base URL renders the path and appends the remaining fields as query pairs.
pub mod schema;
pub mod template;
pub mod plan;
pub mod bind;
pub mod text;
pub mod profile;
pub mod paths;
pub mod as_url;
