//! A schema toolchain for relational databases: it introspects a described
//! SQL schema into a high-level data model, computes the SQL schema a data
//! model implies, renders schema changes as dialect-specific DDL, and
//! classifies changes as safe, warned or unexecutable.

pub mod calculator;
pub mod differ;
pub mod dml;
pub mod introspection;
pub mod laws;
pub mod migrations;
pub mod mssql;
pub mod mutation_type;
pub mod postgres_calc;
pub mod schema;
pub mod sequences;
pub mod sql_migration;
pub mod sqlite_check;
pub mod strutil;
