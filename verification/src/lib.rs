//! Decisions of the Messenger X desktop shell, with their contracts: when an
//! unread count notifies, what the window may load, how a crashed page is
//! recovered, and what the menus, start-up and updates do.

pub mod crash_detect;
pub mod dispatcher;
pub mod download;
pub mod locale;
pub mod main_window;
pub mod menu;
pub mod navigation;
pub mod notif_state;
pub mod notify;
pub mod offline;
pub mod proxy;
pub mod scripts;
pub mod sender_hint;
pub mod snapshot;
pub mod startup;
pub mod text;
pub mod title;
pub mod unread;
pub mod updates;
pub mod visibility;
