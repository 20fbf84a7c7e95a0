//! Driver logic for a 320x480 USB LCD panel: command framing, RGB565
//! pixel streaming, the search for the panel's port and the sequencing of
//! writes to the panel.

pub mod bitmap;
pub mod command;
pub mod errors;
pub mod port;
pub mod transfer;

pub use bitmap::{is_size_accepted, to_rgb565, PixelBuffer};
pub use command::{
    encode_orientation_command, encode_region_command, Orientation, ScreenCommand, HEIGHT, WIDTH,
};
pub use errors::ScreenError;
pub use port::{find_screen_port, PortCandidate, SCREEN_SERIAL};
pub use transfer::Transfer;
