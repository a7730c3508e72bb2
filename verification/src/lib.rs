//! Discovery and control of the video input of DDC/CI monitors, together
//! with the per-monitor aliases and favorites a user keeps for those inputs.

pub mod config;
pub mod input_source;
pub mod listing;
pub mod monitor;
pub mod session;

pub use config::{Config, Favorite, MonitorConfig};
pub use input_source::InputSource;
pub use monitor::{Monitor, MonitorError};
pub use session::{
    FavoriteInfo, FavoriteList, InputSourceList, MonitorInfo, MonitorList, Session,
};
