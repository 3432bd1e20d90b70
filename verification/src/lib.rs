//! Assembles the published surface of a content site: the newest-first digest
//! of everything that is out, the syndication feed made from it, and the
//! sitemap of all content.

pub mod digest;
pub mod feed;
pub mod patrons;
pub mod post;
pub mod sitemap;
pub mod state;
