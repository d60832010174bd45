pub mod audio;
pub mod auth;
pub mod library;
pub mod plm;
pub mod rodio_utils;
pub mod subsonic_client;
pub mod text;
pub mod ui_impl;
pub mod widgets;
