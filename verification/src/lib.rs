//! Small verified components, each built around one Rust language feature:
//! data types with validated construction, linked lists, traits with
//! static and enum-based dispatch, higher-order validators, lifetime
//! examples, and a decimal integer parser.

pub mod shapes;
pub mod singly_linked;
pub mod doubly_linked;
pub mod parsing;
pub mod figures;
pub mod geometry;
pub mod speed;
pub mod function_pointers;
pub mod closures;
pub mod lifetimes;
pub mod records;
pub mod books;
pub mod combinators;
