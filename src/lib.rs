pub mod debug;
pub mod dev_marker;
pub mod greeting;
pub mod protocol;
