pub mod error;
pub mod flows;
pub mod text;
pub mod paths;
pub mod files;
pub mod file_provider;
pub mod json;
pub mod gemini_types;
pub mod agents;
pub mod orchestrator;
pub mod gemini;
pub mod session;
pub mod logging;
pub mod prompt;
pub mod runner;
pub mod doc_retriever;
pub mod tools;
pub mod config;
pub mod cli;
pub mod flow_run;
pub mod vcs;
