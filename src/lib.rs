pub mod config;
pub mod convert;
pub mod media;
pub mod model;
pub mod pcm;
pub mod pipeline;
pub mod selection;
pub mod subtitle;
pub mod text;
pub mod transcript;
