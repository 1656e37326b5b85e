pub mod agent;
pub mod aggregate;
pub mod attachments;
pub mod chat;
pub mod config;
pub mod docs;
pub mod json;
pub mod launcher;
pub mod normalize;
pub mod review;
pub mod roles;
pub mod session;
pub mod tags;
pub mod tasks;
pub mod text;
