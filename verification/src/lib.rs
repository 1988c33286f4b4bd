//! An administration backend: menus, route tables, card grids and the
//! decisions taken by the entity routes, with their contracts proved by Verus.

pub mod builder;
pub mod card_grid;
pub mod error;
pub mod form;
pub mod keyed;
pub mod menu;
pub mod model;
pub mod routes;
pub mod search;
pub mod text;
pub mod upload;
pub mod view_model;
