pub mod channel;
pub mod playlist;
pub mod requests;
pub mod video;
