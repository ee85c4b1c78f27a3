//! Client core for a game-completion-time site: discovery of the search
//! endpoint in the site's script bundle, the endpoint cache, and the search
//! decisions, with the request and response data model.
pub mod text;
pub mod discovery;
pub mod model;
pub mod cache;
pub mod search;
