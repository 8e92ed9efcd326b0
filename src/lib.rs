//! A microphone mute toggle: the tray icon renderer, the settings text,
//! the hotkey binding, and the event-loop state machine that ties a mute
//! toggle to the icon and notification shown for it.

pub mod icon;
pub mod settings;
pub mod hotkey;
pub mod event_loop;
pub mod toggle;
