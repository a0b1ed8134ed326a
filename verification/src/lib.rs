//! Media-player integration logic: system media events, the taskbar thumbnail
//! toolbar, "now playing" updates and radio metadata polling.
pub mod channel;
pub mod event;
pub mod icons;
pub mod j1;
pub mod now_playing;
pub mod radio;
pub mod smtc;
pub mod taskbar;
pub mod text;
pub mod vocaloid;
pub mod window;
