//! Verified state and decision logic of the Mirmir terminal dashboard.
pub mod activity;
pub mod app;
pub mod benchmark;
pub mod capabilities;
pub mod chat;
pub mod chat_settings;
pub mod configure;
pub mod content;
pub mod dialogs;
pub mod footer;
pub mod events;
pub mod format;
pub mod input;
pub mod lists;
pub mod load;
pub mod load_target;
pub mod models;
pub mod navigation;
pub mod records;
pub mod refresh;
pub mod removal;
pub mod restore;
pub mod screen;
pub mod search;
pub mod text;
pub mod transfer;
pub mod viewport;
pub mod view;
