//! Decoded images, in the pixel formats that the ui draws.
use vstd::prelude::*;

verus! {

/// Image pixels, four bytes each in blue, green, red, alpha order.
#[derive(Debug, Clone)]
pub struct BgraBytes {
    height: u32,
    width: u32,
    bytes: Vec<u8>,
}

impl BgraBytes {
    pub closed spec fn spec_height(self) -> u32 {
        self.height
    }

    pub closed spec fn spec_width(self) -> u32 {
        self.width
    }

    pub closed spec fn pixels(self) -> Seq<u8> {
        self.bytes@
    }

    pub fn new(height: u32, width: u32, bytes: Vec<u8>) -> (b: BgraBytes)
        ensures
            b.spec_height() == height,
            b.spec_width() == width,
            b.pixels() == bytes@,
    {
        BgraBytes { height, width, bytes }
    }

    pub fn height(&self) -> (h: u32)
        ensures
            h == self.spec_height(),
    {
        self.height
    }

    pub fn width(&self) -> (w: u32)
        ensures
            w == self.spec_width(),
    {
        self.width
    }

    /// The pixel bytes.
    pub fn into_bytes(self) -> (bytes: Vec<u8>)
        ensures
            bytes@ == self.pixels(),
    {
        self.bytes
    }
}

/// Image pixels, three bytes each in red, green, blue order.
#[derive(Debug, Clone)]
pub struct RgbBytes {
    height: u32,
    width: u32,
    bytes: Vec<u8>,
}

impl RgbBytes {
    pub closed spec fn spec_height(self) -> u32 {
        self.height
    }

    pub closed spec fn spec_width(self) -> u32 {
        self.width
    }

    pub closed spec fn pixels(self) -> Seq<u8> {
        self.bytes@
    }

    pub fn new(height: u32, width: u32, bytes: Vec<u8>) -> (b: RgbBytes)
        ensures
            b.spec_height() == height,
            b.spec_width() == width,
            b.pixels() == bytes@,
    {
        RgbBytes { height, width, bytes }
    }

    pub fn height(&self) -> (h: u32)
        ensures
            h == self.spec_height(),
    {
        self.height
    }

    pub fn width(&self) -> (w: u32)
        ensures
            w == self.spec_width(),
    {
        self.width
    }

    /// The pixel bytes.
    pub fn into_bytes(self) -> (bytes: Vec<u8>)
        ensures
            bytes@ == self.pixels(),
    {
        self.bytes
    }
}

} // verus!
