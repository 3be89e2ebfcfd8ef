//! Page selection, path resolution and assembly planning for a tool that
//! extracts pages from a PDF and optionally prepends a rendered cover.

pub mod config;
pub mod driver;
pub mod html;
pub mod pages;
pub mod paths;
pub mod plan;
