//! A query-construction and record-mapping engine for a wide-row store.
//!
//! Record types describe their identity once (`model::NoSql`); values convert
//! to and from the transport-neutral `value::CqlType` (`convert`); filters
//! bind key columns in declaration order (`filter`); staged builders produce
//! query objects whose text and binds agree with the record's keys (`client`,
//! `query`); the adapter module turns query objects into statements for the
//! session and gateway transports and turns their rows back into records.
pub mod text;
pub mod value;
pub mod convert;
pub mod data_types;
pub mod model;
pub mod filter;
pub mod query;
pub mod client;
pub mod adapter;
pub mod query_builder;
pub mod select;
pub mod expressions;
pub mod schema;
pub mod payment;
pub mod migration;
