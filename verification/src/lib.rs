//! Verified core of the write-only secret providers for GitHub Actions and
//! Zuplo: provider URIs into configurations, the command lines handed to the
//! `gh` and `zuplo` CLIs, and the decisions taken on what those CLIs report.

pub mod error;
pub mod text;
pub mod command;
pub mod url_parts;
pub mod github_actions;
pub mod zuplo;
pub mod laws;
