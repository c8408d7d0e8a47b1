//! Finding the gacha wish-history links that the game's web cache holds,
//! turning them into links of the record service, and walking that service
//! page by page.
pub mod game;
pub mod history;
pub mod json;
pub mod links;
pub mod paging;
pub mod scan;
pub mod session;
pub mod text;
