pub mod access;
pub mod ai;
pub mod ask;
pub mod asr;
pub mod auth;
pub mod billing;
pub mod clock;
pub mod frame;
pub mod ids;
pub mod image;
pub mod inspire;
pub mod json;
pub mod pay;
pub mod prompt;
pub mod quiz;
pub mod reply;
pub mod serve;
pub mod settings;
pub mod subscription;
pub mod table;
pub mod text;
pub mod usage;
