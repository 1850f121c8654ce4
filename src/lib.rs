//! Point queries on the Unicode character database: general category, canonical combining
//! class, case, alphabetic status and one-level decompositions of a code point.
pub mod batch;
pub mod category;
pub mod data;
pub mod database;
pub mod fill;
pub mod search;
pub mod tables;
