pub mod args;
pub mod command;
pub mod dispatch;
pub mod economy;
pub mod error;
pub mod gamble;
pub mod leaderboard;
pub mod model;
pub mod outside;
pub mod text;
pub mod util;
