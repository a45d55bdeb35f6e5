//! Detection of Elixir projects and synthesis of their build plans.
pub mod elixir;
pub mod plan;
pub mod project;
pub mod provider;
pub mod text;
pub mod version;
