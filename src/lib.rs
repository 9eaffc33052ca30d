pub mod text;
pub mod args;
pub mod settings;
pub mod json;
pub mod engine;
pub mod report;
pub mod run;
