//! Core logic of a minimal finalized-block explorer page.
//!
//! The library models everything the page decides or displays: how the
//! live block list grows as finalized-block notifications arrive
//! ([`state`]), how a URL path selects one of the page's views
//! ([`route`]), the decimal text the page prints for numbers ([`text`]),
//! the data of the per-block detail panel ([`detail`]), and the rendered
//! body of each view ([`page`]). Network access and the reactive UI
//! around these live outside the library and hand it plain values.

pub mod detail;
pub mod page;
pub mod route;
pub mod state;
pub mod text;

pub use detail::BlockDetail;
pub use page::BodyView;
pub use route::AppRoute;
pub use state::ExplorerState;
