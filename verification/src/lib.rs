//! Moujin: the decisions of a Discord bot that plays music in voice
//! channels and looks up Final Fantasy XIV characters.
//!
//! The library computes what the bot answers and which step it takes next;
//! the program around it talks to Discord, the voice driver and the web.
pub mod text;
pub mod config;
pub mod player;
pub mod interaction;
pub mod character;
pub mod commands;
pub mod music;
pub mod voice_commands;
pub mod handler;
pub mod voice;
