//! Collects the IP prefixes announced by an autonomous system from three
//! differently shaped public sources, and turns each into one record shape.
pub mod models;
pub mod cidr;
pub mod text;
pub mod html;
pub mod records;
pub mod pipeline;
pub mod input;
