pub mod ids;
pub mod lists;
pub mod table;
