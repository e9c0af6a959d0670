//! The decisions of the user interface, apart from rendering.

pub mod app;
pub mod completions;
pub mod errors;
pub mod home;
pub mod item_view;
pub mod list_page;
pub mod list_service;
pub mod login;
pub mod modal;
