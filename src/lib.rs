//! A domain model for an order, payment and invoice workflow, written as
//! algebraic data types with verified constructors and operations.
pub mod fruit;
pub mod quantity;
pub mod person;
pub mod payment;
