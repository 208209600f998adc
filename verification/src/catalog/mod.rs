pub mod catalog;
pub mod column;
pub mod schema;


pub use column::{Column, ColumnView};
pub use schema::{Schema, SchemaRef};
