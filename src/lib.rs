//! Declarative test-data seeding: table descriptions, generated rows and
//! the multi-row `INSERT` statements that carry them to a database.
pub mod value;
pub mod statement;
pub mod fake;
pub mod table;
pub mod mock;
pub mod naming;
pub mod runner;
