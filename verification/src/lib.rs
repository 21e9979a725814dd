//! Verified core of a small git status tool: the markers a shell prompt
//! shows, the tables of repositories and branches, and the decisions taken
//! while scanning a directory of repositories.
pub mod cli;
pub mod color;
pub mod display;
pub mod git;
pub mod oid;
pub mod primitives;
pub mod scan;
pub mod tables;
pub mod text;
