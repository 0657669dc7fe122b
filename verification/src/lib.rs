//! Motion and perception core of a small two-wheeled rover.

pub mod brain;
pub mod config;
pub mod drive;
pub mod encoder;
pub mod fanout;
pub mod http_controller;
pub mod lidar;
pub mod logger;
pub mod luna;
pub mod motor;
pub mod network;
pub mod position_control;
pub mod proximity;
pub mod reporter;
pub mod scanner;
pub mod speed_control;
