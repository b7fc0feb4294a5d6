pub mod codec;
pub mod colors;
pub mod event;
pub mod filter;
pub mod hexcode;
pub mod ratchet;
pub mod session;
pub mod sorting;
pub mod stream;
