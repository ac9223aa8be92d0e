//! Evaluation core of a rule language written as JSON: the data model of
//! function definitions, identifier validation, strict addition, structural
//! equality and chained comparison, each with a machine-checked contract.

pub mod json;
pub mod error;
pub mod identifier;
pub mod function;
pub mod arithmetic;
pub mod equality;
pub mod namespace;
