//! Scaffolding for C++/CMake projects: the checks on a target directory, the
//! templates and the plan of files that make up a new project, and the
//! decisions behind configuring, building and running it.

pub mod driver;
pub mod paths;
pub mod plan;
pub mod project;
pub mod standard;
pub mod template;
