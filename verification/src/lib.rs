//! Quick settings: the logic of a panel applet for network, Bluetooth, audio, brightness,
//! battery, power profiles and the session.
//!
//! [`app`] holds the applet's model and what it does on each message, [`window`] what its
//! popup shows. The other modules hold what is known of each service. [`feeds`] says how
//! the services are followed. What holds of the applet as a whole stands in [`handling`],
//! message by message, in [`showing`], control by control, and in [`laws`].

pub mod app;
pub mod audio;
pub mod battery;
pub mod brightness;
pub mod feeds;
pub mod handling;
pub mod labels;
pub mod laws;
pub mod network;
pub mod percent;
pub mod power;
pub mod profile;
pub mod showing;
pub mod text;
pub mod window;
