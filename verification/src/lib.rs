//! `costctl` core engine: forecast the monthly cost delta of an infrastructure plan.
//!
//! - `json`      — the library's own model of a JSON document
//! - `ir`        — canonical resource-change model
//! - `adapters`  — turn an IaC plan document into the IR
//! - `pricing`   — unit-price lookup from a price catalog
//! - `catalog`   — the small built-in price catalog
//! - `cost`      — compute signed monthly deltas
//! - `report`    — render text output and the JSON report document
//! - `text`      — small text-building helpers
//! - `laws`      — properties of the library as a whole
//!
//! Amounts of money are fixed-point integers counted in millionths of a US dollar.

pub mod text;
pub mod json;
pub mod ir;
pub mod adapters;
pub mod pricing;
pub mod catalog;
pub mod cost;
pub mod report;
pub mod laws;
