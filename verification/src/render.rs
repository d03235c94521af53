//! The overlay that shows the icon: which output it goes to, where it
//! stands, how large it is, and the pixels it holds.
//!
//! Creating, filling and destroying the overlay window is the caller's
//! part; here the overlay is worked out as plain values.

use crate::icon::{swap_red_blue, swapped};
use crate::property::{copy_range, strict_text};
use crate::text::same_text;
use vstd::prelude::*;
use vstd::utf8::{decode_utf8, valid_utf8};

verus! {

/// A decoded picture: four bytes a pixel, red, green, blue, alpha.
#[derive(Debug)]
pub struct RasterImage {
    pub width: u32,
    pub height: u32,
    pub pixels: Vec<u8>,
}

impl RasterImage {
    /// The picture is not empty and holds four bytes for each pixel.
    pub open spec fn wf(self) -> bool {
        &&& self.width > 0
        &&& self.height > 0
        &&& self.pixels@.len() == self.width * self.height * 4
    }

    /// Whether the picture is not empty and holds four bytes for each
    /// pixel.
    pub fn is_well_formed(&self) -> (ok: bool)
        ensures
            ok == self.wf(),
    {
        if self.width == 0 || self.height == 0 {
            return false;
        }
        assert(self.width * self.height <= 0xffff_ffff * 0xffff_ffff) by (nonlinear_arith)
            requires
                0 <= self.width <= 0xffff_ffff,
                0 <= self.height <= 0xffff_ffff,
        ;
        let count: u64 = (self.width as u64) * (self.height as u64);
        let len: u64 = self.pixels.len() as u64;
        len % 4 == 0 && len / 4 == count
    }
}

/// An output of the display controller, as far as the overlay needs it.
#[derive(Debug)]
pub struct OutputInfo {
    /// The name of the output, as the display controller gives it.
    pub name: Vec<u8>,
    /// Whether a monitor is connected to the output.
    pub connected: bool,
    /// Where the output's picture starts on the screen.
    pub x: i16,
    pub y: i16,
}

/// The overlay window to create.
#[derive(Debug, PartialEq, Eq)]
pub struct Overlay {
    pub x: i16,
    pub y: i16,
    pub width: u16,
    pub height: u16,
    /// The pixels, four bytes each, blue, green, red, alpha.
    pub data: Vec<u8>,
}

/// Why no overlay can be shown.
#[derive(Clone, Copy, Debug, PartialEq, Eq, Structural)]
pub enum ShowError {
    /// The name of an output is not valid UTF-8.
    InvalidOutputName,
    /// No connected output has the monitor's name.
    MonitorNotFound,
    /// The picture is empty or its buffer does not fit its size.
    InvalidImage,
    /// The overlay would not fit the coordinates of the screen.
    OutOfRange,
}

/// The class name that marks the overlay windows, so that stray ones
/// can be told from other windows.
pub fn overlay_class() -> (class: &'static str)
    ensures
        class@ == "polybar-ixwindow-icon"@,
{
    "polybar-ixwindow-icon"
}

/// What resizing a picture gives: width, height and pixels. The picture
/// keeps its proportions and is made as large as fits a square of
/// `size` by `size`.
pub uninterp spec fn resized(width: u32, height: u32, pixels: Seq<u8>, size: u16) -> (
    u32,
    u32,
    Seq<u8>,
);

/// Calls `DynamicImage::resize` of the `image` crate with the
/// Catmull-Rom filter, on the picture taken as an `RgbaImage`.
///
/// Trusted: the result depends on the picture and the size alone, and
/// holds four bytes for each of its pixels.
#[verifier::external_body]
fn resize_rgba(width: u32, height: u32, pixels: Vec<u8>, size: u16) -> (out: (u32, u32, Vec<u8>))
    requires
        width > 0,
        height > 0,
        pixels@.len() == width * height * 4,
    ensures
        (out.0, out.1, out.2@) == resized(width, height, pixels@, size),
        out.2@.len() == out.0 * out.1 * 4,
{
    let picture = image::RgbaImage::from_raw(width, height, pixels).unwrap();
    let bound = u32::from(size);
    let filter = image::imageops::FilterType::CatmullRom;
    let small = image::DynamicImage::ImageRgba8(picture).resize(bound, bound, filter).into_rgba8();
    (small.width(), small.height(), small.into_raw())
}

/// Whether `k` is the first output that bears the name `monitor_name`
/// and has a monitor connected, all names up to it being valid UTF-8.
pub open spec fn is_monitor_at(outputs: Seq<OutputInfo>, monitor_name: Seq<char>, k: int) -> bool {
    &&& 0 <= k < outputs.len()
    &&& forall|j: int| 0 <= j <= k ==> valid_utf8(#[trigger] outputs[j].name@)
    &&& decode_utf8(outputs[k].name@) == monitor_name
    &&& outputs[k].connected
    &&& forall|j: int|
        0 <= j < k ==> !(decode_utf8(#[trigger] outputs[j].name@) == monitor_name
            && outputs[j].connected)
}

/// Whether the search for the monitor meets a name that is not valid
/// UTF-8 before it meets the monitor.
pub open spec fn meets_invalid_name(outputs: Seq<OutputInfo>, monitor_name: Seq<char>) -> bool {
    exists|k: int|
        {
            &&& 0 <= k < outputs.len()
            &&& !valid_utf8(#[trigger] outputs[k].name@)
            &&& forall|j: int|
                0 <= j < k ==> valid_utf8(#[trigger] outputs[j].name@) && !(decode_utf8(
                    outputs[j].name@,
                ) == monitor_name && outputs[j].connected)
        }
}

/// Whether every name is valid UTF-8 and no connected output bears the
/// name `monitor_name`.
pub open spec fn monitor_missing(outputs: Seq<OutputInfo>, monitor_name: Seq<char>) -> bool {
    forall|j: int|
        0 <= j < outputs.len() ==> valid_utf8(#[trigger] outputs[j].name@) && !(decode_utf8(
            outputs[j].name@,
        ) == monitor_name && outputs[j].connected)
}

/// Finds the output of the monitor `monitor_name`: the first output of
/// that name with a monitor connected. The outputs are looked at in
/// order, and a name that is not valid UTF-8 ends the search.
pub fn find_monitor(outputs: &Vec<OutputInfo>, monitor_name: &str) -> (found: Result<
    usize,
    ShowError,
>)
    ensures
        match found {
            Ok(k) => is_monitor_at(outputs@, monitor_name@, k as int),
            Err(ShowError::InvalidOutputName) => meets_invalid_name(outputs@, monitor_name@),
            Err(ShowError::MonitorNotFound) => monitor_missing(outputs@, monitor_name@),
            Err(_) => false,
        },
{
    let mut i: usize = 0;
    while i < outputs.len()
        invariant
            i <= outputs@.len(),
            forall|j: int|
                0 <= j < i ==> valid_utf8(#[trigger] outputs@[j].name@) && !(decode_utf8(
                    outputs@[j].name@,
                ) == monitor_name@ && outputs@[j].connected),
        decreases outputs@.len() - i,
    {
        let output = &outputs[i];
        let bytes = copy_range(output.name.as_slice(), 0, output.name.len());
        assert(bytes@ == output.name@);
        match strict_text(bytes) {
            None => {
                return Err(ShowError::InvalidOutputName);
            },
            Some(name) => {
                if same_text(name.as_str(), monitor_name) && output.connected {
                    return Ok(i);
                }
            },
        }
        i += 1;
    }
    Err(ShowError::MonitorNotFound)
}

/// Whether an overlay of `width` by `height` at `x`, `y` from the
/// output's start fits the coordinates of the screen.
pub open spec fn overlay_fits(
    width: u32,
    height: u32,
    x: i16,
    y: i16,
    output_x: i16,
    output_y: i16,
) -> bool {
    &&& width <= u16::MAX
    &&& height <= u16::MAX
    &&& i16::MIN <= output_x + x <= i16::MAX
    &&& i16::MIN <= output_y + y <= i16::MAX
}

/// Places a picture on the screen: `x`, `y` count from where the
/// output's picture starts, and the pixels are turned from red, green,
/// blue, alpha into blue, green, red, alpha, the order in which the
/// screen takes them. `None` where the overlay does not fit the
/// coordinates of the screen.
pub fn place_overlay(
    width: u32,
    height: u32,
    pixels: Vec<u8>,
    x: i16,
    y: i16,
    output_x: i16,
    output_y: i16,
) -> (overlay: Option<Overlay>)
    ensures
        overlay is Some <==> overlay_fits(width, height, x, y, output_x, output_y),
        overlay matches Some(o) ==> o.x == output_x + x && o.y == output_y + y && o.width == width
            && o.height == height && o.data@ == swapped(pixels@),
{
    if width > 0xffff || height > 0xffff {
        return None;
    }
    let left: i32 = output_x as i32 + x as i32;
    let top: i32 = output_y as i32 + y as i32;
    if left < -0x8000 || left > 0x7fff || top < -0x8000 || top > 0x7fff {
        return None;
    }
    let mut data = pixels;
    swap_red_blue(&mut data);
    Some(Overlay { x: left as i16, y: top as i16, width: width as u16, height: height as u16, data })
}

/// Whether `overlay` is what showing `image`, scaled to `size`, at `x`,
/// `y` on the output that starts at `output_x`, `output_y` gives.
pub open spec fn prepared(
    image: RasterImage,
    x: i16,
    y: i16,
    size: u16,
    output_x: i16,
    output_y: i16,
    overlay: Result<Overlay, ShowError>,
) -> bool {
    if !image.wf() {
        overlay == Err::<Overlay, ShowError>(ShowError::InvalidImage)
    } else {
        let small = resized(image.width, image.height, image.pixels@, size);
        match overlay {
            Ok(o) => overlay_fits(small.0, small.1, x, y, output_x, output_y) && o.x == output_x + x
                && o.y == output_y + y && o.width == small.0 && o.height == small.1 && o.data@
                == swapped(small.2),
            Err(e) => e == ShowError::OutOfRange && !overlay_fits(
                small.0,
                small.1,
                x,
                y,
                output_x,
                output_y,
            ),
        }
    }
}

/// The overlay that shows `image`, scaled to `size`, at `x`, `y` on the
/// output that starts at `output_x`, `output_y`. Fails where the picture
/// is empty or its buffer does not fit its size, and where the overlay
/// does not fit the coordinates of the screen.
pub fn prepare_overlay(
    image: RasterImage,
    x: i16,
    y: i16,
    size: u16,
    output_x: i16,
    output_y: i16,
) -> (overlay: Result<Overlay, ShowError>)
    ensures
        prepared(image, x, y, size, output_x, output_y, overlay),
{
    if !image.is_well_formed() {
        return Err(ShowError::InvalidImage);
    }
    let (width, height, pixels) = resize_rgba(image.width, image.height, image.pixels, size);
    match place_overlay(width, height, pixels, x, y, output_x, output_y) {
        Some(overlay) => Ok(overlay),
        None => Err(ShowError::OutOfRange),
    }
}

/// Whether `overlay` is what showing `image` on the monitor
/// `monitor_name` gives.
pub open spec fn shown(
    image: RasterImage,
    x: i16,
    y: i16,
    size: u16,
    outputs: Seq<OutputInfo>,
    monitor_name: Seq<char>,
    overlay: Result<Overlay, ShowError>,
) -> bool {
    if meets_invalid_name(outputs, monitor_name) {
        overlay == Err::<Overlay, ShowError>(ShowError::InvalidOutputName)
    } else if monitor_missing(outputs, monitor_name) {
        overlay == Err::<Overlay, ShowError>(ShowError::MonitorNotFound)
    } else {
        exists|k: int|
            {
                &&& #[trigger] is_monitor_at(outputs, monitor_name, k)
                &&& prepared(image, x, y, size, outputs[k].x, outputs[k].y, overlay)
            }
    }
}

/// The overlay that shows `image` on the monitor `monitor_name`: the
/// picture scaled to `size`, at `x`, `y` from where the monitor's output
/// starts. The monitor is looked up first; only then the picture is
/// scaled.
pub fn show(
    image: RasterImage,
    x: i16,
    y: i16,
    size: u16,
    outputs: &Vec<OutputInfo>,
    monitor_name: &str,
) -> (overlay: Result<Overlay, ShowError>)
    ensures
        shown(image, x, y, size, outputs@, monitor_name@, overlay),
{
    match find_monitor(outputs, monitor_name) {
        Err(e) => Err(e),
        Ok(k) => {
            let output = &outputs[k];
            prepare_overlay(image, x, y, size, output.x, output.y)
        },
    }
}

} // verus!
