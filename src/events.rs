use vstd::prelude::*;

use crate::bitmap::{Bitmap, BitmapModel};

verus! {

/// What a decoded image is for. The worker only echoes it back, so that the
/// side that asked can tell results apart.
#[derive(Clone, Copy, Debug, PartialEq, Eq, Structural)]
pub enum ImageType {
    AlbumArt,
    Thumbnail,
}

/// Channel order that the requester wants in the decoded bitmap.
#[derive(Clone, Copy, Debug, PartialEq, Eq, Structural)]
pub enum ImageLayout {
    RGB,
    BGR,
}

/// A unit of work sent to the data thread.
#[derive(Debug, PartialEq, Eq)]
pub enum DataCommand {
    /// Encoded image bytes, what the image is for, and the wanted layout.
    DecodeImage(Vec<u8>, ImageType, ImageLayout),
}

/// A command as a value: the encoded bytes, the role tag and the layout.
pub type CommandModel = (Seq<u8>, ImageType, ImageLayout);

impl View for DataCommand {
    type V = CommandModel;

    open spec fn view(&self) -> CommandModel {
        match self {
            DataCommand::DecodeImage(data, image_type, layout) => (data@, *image_type, *layout),
        }
    }
}

/// The outcome of one command, sent back by the data thread.
#[derive(Debug, PartialEq, Eq)]
pub enum DataEvent {
    ImageDecoded(Bitmap, ImageType),
    DecodeError(ImageType),
}

/// An event as a value: the role tag, and the bitmap when decoding succeeded.
pub type EventModel = (ImageType, Option<BitmapModel>);

impl View for DataEvent {
    type V = EventModel;

    open spec fn view(&self) -> EventModel {
        match self {
            DataEvent::ImageDecoded(image, image_type) => (*image_type, Some(image@)),
            DataEvent::DecodeError(image_type) => (*image_type, None),
        }
    }
}

impl DataEvent {
    /// The role tag that the event carries back.
    pub fn image_type(&self) -> (r: ImageType)
        ensures
            r == self@.0,
    {
        match self {
            DataEvent::ImageDecoded(_, image_type) => *image_type,
            DataEvent::DecodeError(image_type) => *image_type,
        }
    }
}

} // verus!
