//! Prices of nested product bundles under swappable discount strategies,
//! in two flavours: one with runtime dispatch over heap-owned nodes, one
//! with statically typed, generic nodes. Both compute the same totals.
//!
//! Amounts are integers counting hundredths of the currency unit.
pub mod discount;
pub mod render;
pub mod ecommerce_heap;
pub mod ecommerce_stack;
pub mod laws;
