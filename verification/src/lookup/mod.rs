pub mod attacks;
pub mod lookup_table;
