pub mod config;
pub mod files;
pub mod github_actions;
pub mod licenses;
pub mod project_generator;
pub mod python_files;
pub mod resolver;
pub mod settings;
pub mod slug;
