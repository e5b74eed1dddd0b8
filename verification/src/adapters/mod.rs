//! Adapters turn a specific IaC tool's plan output into the normalized [`crate::ir`].
//!
//! Terraform is the only adapter today; Pulumi and CloudFormation slot in here later
//! without touching the pricing / cost / report layers downstream.

pub mod terraform;
