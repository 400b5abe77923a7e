//! Decision logic of a service that mirrors NEAR Sputnik DAO activity.

pub mod bigquery;
pub mod json;
pub mod models;
pub mod routes;
pub mod sync;
pub mod sync_laws;
pub mod sync_run;
pub mod text;
