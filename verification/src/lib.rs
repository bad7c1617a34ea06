//! A desktop-wallpaper updater built around a published image-of-the-day feed.
//!
//! The library holds the verified decision logic of the updater: selecting
//! the newest feed entry, normalizing the enclosure URL's scheme, the update
//! cycle's step-by-step state machine, and the supervisor's retry policy.
//! All network, filesystem and platform calls are performed by the driver
//! program, which feeds their outcomes back into the state machines as events.

pub mod cycle;
pub mod feed;
pub mod supervisor;
pub mod urlnorm;
