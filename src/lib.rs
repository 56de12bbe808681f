pub mod fence;
pub mod host;
pub mod renderer;
pub mod ring;
pub mod startup;
pub mod win32_utils;
