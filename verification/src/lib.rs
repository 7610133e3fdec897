pub mod app;
pub mod audio;
pub mod bot;
pub mod constants;
pub mod engine;
pub mod fen;
pub mod game;
pub mod laws;
pub mod menu;
pub mod scene;
pub mod squares;
pub mod storage;
pub mod text;
pub mod types;
