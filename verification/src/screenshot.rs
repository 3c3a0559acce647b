use vstd::prelude::*;

verus! {

/// A webview screenshot: a base64-encoded PNG and its size in pixels.
#[derive(Clone, Debug)]
pub struct CapturedImageDto {
    pub png_base64: String,
    pub width: u32,
    pub height: u32,
}

/// The color channels of one pixel, each from 0 to 255.
#[derive(Clone, Copy, Debug, PartialEq, Eq, Structural)]
pub struct RgbaDto {
    pub r: u32,
    pub g: u32,
    pub b: u32,
    pub a: u32,
}

/// Errors of the screenshot commands.
#[derive(Clone, Copy, Debug, PartialEq, Eq, Structural)]
pub enum Error {
    /// The platform has no webview snapshot support.
    Unsupported,
}

/// Captures the calling webview; only OpenHarmony can, so elsewhere this
/// always rejects as unsupported.
pub fn capture_webview() -> (r: Result<CapturedImageDto, Error>)
    ensures
        r matches Err(e) && e == Error::Unsupported,
{
    Err(Error::Unsupported)
}

/// Reads the pixel at (`x`, `y`); only OpenHarmony can, so elsewhere this
/// always rejects as unsupported.
pub fn pick_color(x: u32, y: u32) -> (r: Result<RgbaDto, Error>)
    ensures
        r matches Err(e) && e == Error::Unsupported,
{
    Err(Error::Unsupported)
}

/// The builder of the screenshot plugin; it has no options.
#[derive(Clone, Copy, Debug, Default, PartialEq, Eq, Structural)]
pub struct Builder;

impl Builder {
    /// A builder of the screenshot plugin.
    pub fn new() -> (b: Self)
        ensures
            b == Builder,
    {
        Builder
    }
}

} // verus!
