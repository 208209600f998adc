pub mod limits;
pub mod sql_type;
pub mod type_id;
pub mod value;
pub mod value_factory;

pub use type_id::TypeId;
pub use value::Value;
