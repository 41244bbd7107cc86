pub mod channel;
pub mod playlist;
pub mod utils;
pub mod video;
