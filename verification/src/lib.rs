//! A small agent with long-term memory kept in HelixDB: the verified core.

pub mod agent;
pub mod cli;
pub mod db;
pub mod embed;
pub mod facts;
pub mod json;
pub mod llm;
pub mod numbers;
pub mod text;
pub mod timestamp;
