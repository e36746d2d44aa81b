//! Background decoding worker of a media player: image bytes come in as
//! commands on one channel, decoded bitmaps (or failures) go out as events on
//! another.
pub mod bitmap;
pub mod decode;
pub mod events;
pub mod thread;

pub use bitmap::{rgb_to_bgr, Bitmap};
pub use decode::{apply_layout, decode_image};
pub use events::{DataCommand, DataEvent, ImageLayout, ImageType};
pub use thread::{handle_command, DataInterface, DataThread, WorkerStep, DEFAULT_PAUSE_MS};
