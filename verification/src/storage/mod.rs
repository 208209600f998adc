pub mod disk;
pub mod tuple;
