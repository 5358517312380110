pub mod ascii;
pub mod cli;
pub mod paint;
pub mod recipe;
pub mod report;
pub mod search;
pub mod text;
