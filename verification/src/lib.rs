//! A verified query core for a two-entity object graph: a structured
//! filter compiler that turns per-field comparison filters into
//! parameterized SQL predicates, statement planners for the repository
//! operations and mutations over the two entities, and lazy relation
//! traversal plans. Every operand reaches the store as a bound
//! parameter; the statement text is proved independent of operand
//! contents, and LIKE operands are escaped so their metacharacters
//! match literally.

pub mod api;
pub mod entity;
pub mod errors;
pub mod filters;
pub mod laws;
pub mod like;
pub mod predicate;
pub mod repo;
pub mod resolver;
pub mod text;
pub mod values;
