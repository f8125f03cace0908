pub mod anthropic;
pub mod cli;
pub mod command;
pub mod commit_reference;
pub mod config;
pub mod configure;
pub mod error;
pub mod explain;
pub mod generate;
pub mod git;
pub mod git_entity;
pub mod grok;
pub mod json;
pub mod llm;
pub mod openai;
pub mod phind;
pub mod text;
