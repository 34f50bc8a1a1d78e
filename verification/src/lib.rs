pub mod buffer;
pub mod config;
pub mod cpu_common;
pub mod extension;
pub mod looper;
pub mod scheduler;
