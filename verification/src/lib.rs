//! The rules of a desktop workbench: the memory store of a workspace with its
//! ranking and retrieval, and what the commands around files, git, terminals,
//! extensions and language models decide.

pub mod api;
pub mod chars;
pub mod config;
pub mod embedding;
pub mod extensions;
pub mod file_service;
pub mod git;
pub mod json_comments;
pub mod llm;
pub mod memory_commands;
pub mod memory_laws;
pub mod memory_model;
pub mod memory_rows;
pub mod memory_service;
pub mod memory_types;
pub mod ranking;
pub mod score;
pub mod sqlite_browser;
pub mod terminal;
pub mod text;
pub mod trash_service;
pub mod trusted;
pub mod web_search;
