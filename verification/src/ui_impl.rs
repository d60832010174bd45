pub mod albums;
pub mod player;
pub mod simple;
