//! Verified core of the iSolarCloud string comparison application: the
//! domain vocabulary, the sync scheduler, the analysis decision ladder, the
//! dashboard roll-ups and the decoding of OpenAPI rows.

pub mod time;

pub mod text;
pub mod domain;
pub mod scheduler;
pub mod analysis;
pub mod dashboard;
pub mod points;
pub mod error;
pub mod json;
pub mod client;
pub mod oauth;
pub mod sync;
pub mod schema;
pub mod location;
pub mod grouping;
pub mod migration;
