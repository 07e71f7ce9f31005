pub mod defs;
