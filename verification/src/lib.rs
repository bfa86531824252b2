//! Switching between AWS profiles.
pub mod choice;
pub mod cli;
pub mod command;
pub mod config;
pub mod course;
pub mod credentials;
pub mod distance;
pub mod doctor;
pub mod ending;
pub mod failure;
pub mod flow;
pub mod identity;
pub mod json;
pub mod learning;
pub mod locations;
pub mod login;
pub mod meaning;
pub mod ordered;
pub mod paths;
pub mod platform;
pub mod printing;
pub mod registry;
pub mod remembered;
pub mod report;
pub mod scripts;
pub mod sections;
pub mod session;
pub mod settings;
pub mod shell;
pub mod shown;
pub mod state;
pub mod style;
pub mod text;
pub mod utf8;
pub mod visits;
pub mod waiting;
pub mod words;
