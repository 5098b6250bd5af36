//! A small web gallery of letter pages with a shared 16x16 brightness grid.
//!
//! The grid starts fully bright and clients darken single cells through a
//! JSON API. This crate holds the verified core: the grid and its
//! saturating point mutation, the synchronized process-wide store, the JSON
//! encoding of a grid snapshot, and the static page bodies. The HTTP layer
//! around it only routes requests to these functions.

pub mod grid;
pub mod json;
pub mod pages;
pub mod store;

pub use grid::Grid;
pub use grid::CELL_COUNT;
pub use grid::DARKEN_STEP;
pub use grid::GRID_SIZE;
pub use grid::INITIAL_BRIGHTNESS;
pub use json::grid_json_bytes;
pub use pages::index;
pub use pages::page_a;
pub use pages::page_b;
pub use pages::page_c;
pub use pages::HOME_HTML;
pub use pages::PAGE_A_HTML;
pub use pages::PAGE_B_HTML;
pub use pages::PAGE_C_HTML;
pub use store::SharedGrid;
