//! The icon of a window: decoding the icon property, choosing among the
//! sizes it offers, laying the chosen one over the bar's colour, and
//! naming the file it is cached in.
//!
//! Reading the property and writing the file are the caller's part.

use crate::property::{copy_range, le_word, read_le_word};
use crate::text::to_chars;
use vstd::prelude::*;

verus! {

/// One icon as a window offers it: its size and its pixels, four bytes
/// each, in the order red, green, blue, alpha.
#[derive(Debug, PartialEq, Eq)]
pub struct ImageData {
    pub width: u32,
    pub height: u32,
    pub buf: Vec<u8>,
}

/// An `ImageData` as a mathematical value.
pub struct IconPixels {
    pub width: u32,
    pub height: u32,
    pub buf: Seq<u8>,
}

impl View for ImageData {
    type V = IconPixels;

    open spec fn view(&self) -> IconPixels {
        IconPixels { width: self.width, height: self.height, buf: self.buf@ }
    }
}

impl ImageData {
    /// The buffer holds four bytes for each pixel of the declared size.
    pub open spec fn wf(self) -> bool {
        self.buf@.len() == self.width * self.height * 4
    }
}

/// An opaque picture: three bytes a pixel, red, green, blue.
#[derive(Debug, PartialEq, Eq)]
pub struct RgbImage {
    pub width: u32,
    pub height: u32,
    pub pixels: Vec<u8>,
}

/// A colour without transparency.
#[derive(Clone, Copy, Debug, PartialEq, Eq, Structural)]
pub struct Rgb {
    pub r: u8,
    pub g: u8,
    pub b: u8,
}

/// The window offers no icon.
#[derive(Clone, Copy, Debug, PartialEq, Eq, Structural)]
pub struct NoIconFound;

/// The views of a list of icons.
pub open spec fn icon_views(icons: Seq<ImageData>) -> Seq<IconPixels> {
    Seq::new(icons.len(), |k: int| icons[k]@)
}

/// Whether position `i` of a buffer of `len` bytes lies in a whole group
/// of four.
pub open spec fn in_whole_pixel(i: int, len: int) -> bool {
    (i / 4) * 4 + 4 <= len
}

/// `px` with the first and third byte of every whole group of four
/// exchanged: what is stored as blue, green, red, alpha becomes red,
/// green, blue, alpha, and the other way round.
pub open spec fn swapped(px: Seq<u8>) -> Seq<u8> {
    Seq::new(
        px.len(),
        |i: int|
            if !in_whole_pixel(i, px.len() as int) {
                px[i]
            } else if i % 4 == 0 {
                px[i + 2]
            } else if i % 4 == 2 {
                px[i - 2]
            } else {
                px[i]
            },
    )
}

/// The number that the four bytes at `at` encode, least significant first.
pub open spec fn word_at(data: Seq<u8>, at: int) -> u32 {
    le_word(data, at)
}

/// The number of bytes that the icon declared at `at` takes after its
/// two words of size.
pub open spec fn declared_len(data: Seq<u8>, at: int) -> int {
    word_at(data, at) * word_at(data, at + 4) * 4
}

/// Whether a whole icon stands at `at`: its two words of size and as
/// many bytes of pixels as they declare.
pub open spec fn icon_fits(data: Seq<u8>, at: int) -> bool {
    0 <= at && at + 8 + declared_len(data, at) <= data.len()
}

/// The icons that stand one after the other in `data` from `at` on, up
/// to the first place where no whole icon fits.
pub open spec fn icons_from(data: Seq<u8>, at: int) -> Seq<IconPixels>
    decreases data.len() - at,
{
    if icon_fits(data, at) {
        seq![
            IconPixels {
                width: word_at(data, at),
                height: word_at(data, at + 4),
                buf: swapped(data.subrange(at + 8, at + 8 + declared_len(data, at))),
            },
        ] + icons_from(data, at + 8 + declared_len(data, at))
    } else {
        Seq::empty()
    }
}

/// Exchanges the first and third byte of every whole group of four.
pub fn swap_red_blue(px: &mut Vec<u8>)
    ensures
        final(px)@ == swapped(old(px)@),
{
    let n: usize = px.len();
    let mut i: usize = 0;
    while n - i >= 4
        invariant
            n == px@.len(),
            n == old(px)@.len(),
            i % 4 == 0,
            i <= n,
            forall|j: int| 0 <= j < i ==> px@[j] == swapped(old(px)@)[j],
            forall|j: int| i <= j < n ==> px@[j] == old(px)@[j],
        decreases n - i,
    {
        let c0: u8 = px[i];
        let c2: u8 = px[i + 2];
        px.set(i, c2);
        px.set(i + 2, c0);
        i += 4;
    }
}

/// Decodes the icon property of a window: icons packed one after the
/// other, each two little-endian words (width, height) followed by
/// width x height pixels of four bytes. Decoding stops where the data
/// ends or where a declared size reaches past the end of the data.
/// Each pixel is turned from blue, green, red, alpha into red, green,
/// blue, alpha.
pub fn parse_icons(data: &[u8]) -> (icons: Vec<ImageData>)
    ensures
        icon_views(icons@) == icons_from(data@, 0),
        forall|k: int| 0 <= k < icons@.len() ==> (#[trigger] icons@[k]).wf(),
{
    let mut icons: Vec<ImageData> = Vec::new();
    let n: usize = data.len();
    let mut i: usize = 0;
    loop
        invariant
            n == data@.len(),
            i <= n,
            icons_from(data@, 0) == icon_views(icons@) + icons_from(data@, i as int),
            forall|k: int| 0 <= k < icons@.len() ==> (#[trigger] icons@[k]).wf(),
        ensures
            icon_views(icons@) == icons_from(data@, 0),
            forall|k: int| 0 <= k < icons@.len() ==> (#[trigger] icons@[k]).wf(),
        decreases n - i,
    {
        if n - i < 8 {
            break ;
        }
        let width: u32 = read_le_word(data, i);
        let height: u32 = read_le_word(data, i + 4);
        let room: usize = n - i - 8;
        let count: u64 = pixel_count(width, height);
        if count > (room / 4) as u64 {
            break ;
        }
        let size: usize = (count * 4) as usize;
        let start: usize = i + 8;
        let mut buf: Vec<u8> = copy_range(data, start, start + size);
        swap_red_blue(&mut buf);
        icons.push(ImageData { width, height, buf });
        i = start + size;
    }
    icons
}

/// The number of pixels of a picture of the given size.
fn pixel_count(width: u32, height: u32) -> (count: u64)
    ensures
        count == width * height,
{
    assert(width * height <= 0xffff_ffff * 0xffff_ffff) by (nonlinear_arith)
        requires
            0 <= width <= 0xffff_ffff,
            0 <= height <= 0xffff_ffff,
    ;
    (width as u64) * (height as u64)
}

/// Whether `k` is the icon to show among `icons`: it has a width, none
/// is wider, and no icon after it is as wide.
pub open spec fn is_widest_last(icons: Seq<IconPixels>, k: int) -> bool {
    &&& 0 <= k < icons.len()
    &&& icons[k].width > 0
    &&& forall|j: int| 0 <= j < icons.len() ==> (#[trigger] icons[j]).width <= icons[k].width
    &&& forall|j: int| k < j < icons.len() ==> (#[trigger] icons[j]).width < icons[k].width
}

/// Whether there is nothing to show among `icons`: none has a width.
pub open spec fn none_to_show(icons: Seq<IconPixels>) -> bool {
    forall|j: int| 0 <= j < icons.len() ==> (#[trigger] icons[j]).width == 0
}

/// Chooses the icon to show: the widest; among icons of the same width,
/// the last. An icon without width is never chosen: `None` exactly
/// where no icon has a width.
pub fn select_largest(icons: &Vec<ImageData>) -> (chosen: Option<usize>)
    ensures
        match chosen {
            Some(k) => is_widest_last(icon_views(icons@), k as int),
            None => none_to_show(icon_views(icons@)),
        },
{
    let mut best: Option<usize> = None;
    let mut i: usize = 0;
    while i < icons.len()
        invariant
            i <= icons@.len(),
            match best {
                Some(b) => b < i && icons@[b as int].width > 0 && (forall|j: int|
                    0 <= j < i ==> (#[trigger] icons@[j]).width <= icons@[b as int].width)
                    && (forall|j: int|
                    b < j < i ==> (#[trigger] icons@[j]).width < icons@[b as int].width),
                None => forall|j: int| 0 <= j < i ==> (#[trigger] icons@[j]).width == 0,
            },
        decreases icons@.len() - i,
    {
        let width = icons[i].width;
        let wider = match best {
            Some(b) => width >= icons[b].width,
            None => width > 0,
        };
        if wider {
            best = Some(i);
        }
        i += 1;
    }
    best
}

/// One channel of a pixel laid over a background: the share `alpha` of
/// 255 of the pixel and the rest of the background, rounded down.
pub open spec fn blend(bg: u8, fg: u8, alpha: u8) -> u8 {
    (((255 - alpha) * bg + alpha * fg) / 255) as u8
}

/// The channel of `bg` with the given number: 0 red, 1 green, 2 blue.
pub open spec fn channel(bg: Rgb, c: int) -> u8 {
    if c == 0 {
        bg.r
    } else if c == 1 {
        bg.g
    } else {
        bg.b
    }
}

/// The pixels of `buf`, each four bytes red, green, blue, alpha, laid
/// over `bg`: three bytes a pixel.
pub open spec fn composited(buf: Seq<u8>, bg: Rgb) -> Seq<u8> {
    Seq::new(
        (3 * (buf.len() / 4)) as nat,
        |i: int| blend(channel(bg, i % 3), buf[4 * (i / 3) + i % 3], buf[4 * (i / 3) + 3]),
    )
}

/// Lays one channel of a pixel over the background.
pub fn blend_channel(bg: u8, fg: u8, alpha: u8) -> (out: u8)
    ensures
        out == blend(bg, fg, alpha),
{
    let rest: u32 = 255 - alpha as u32;
    assert(rest * bg + alpha * fg <= 255 * 255 && rest * bg >= 0 && alpha * fg >= 0)
        by (nonlinear_arith)
        requires
            rest == 255 - alpha,
            0 <= alpha <= 255,
            0 <= bg <= 255,
            0 <= fg <= 255,
    ;
    let sum: u32 = rest * (bg as u32) + (alpha as u32) * (fg as u32);
    (sum / 255) as u8
}

/// Lays the pixels of `buf` over the colour `bg`, so that the picture
/// can be shown where nothing blends it with what lies behind. A
/// trailing group of fewer than four bytes is dropped.
pub fn composite(buf: &[u8], bg: Rgb) -> (out: Vec<u8>)
    ensures
        out@ == composited(buf@, bg),
{
    let pixels: usize = buf.len() / 4;
    let mut out: Vec<u8> = Vec::new();
    let mut p: usize = 0;
    while p < pixels
        invariant
            p <= pixels,
            pixels == buf@.len() / 4,
            4 * pixels <= buf@.len() <= usize::MAX,
            out@.len() == 3 * p,
            forall|i: int| 0 <= i < 3 * p ==> out@[i] == composited(buf@, bg)[i],
        decreases pixels - p,
    {
        let alpha: u8 = buf[4 * p + 3];
        let r: u8 = blend_channel(bg.r, buf[4 * p], alpha);
        let g: u8 = blend_channel(bg.g, buf[4 * p + 1], alpha);
        let b: u8 = blend_channel(bg.b, buf[4 * p + 2], alpha);
        out.push(r);
        out.push(g);
        out.push(b);
        p += 1;
    }
    out
}

/// The value of a hexadecimal digit.
pub open spec fn hex_value(c: char) -> Option<int> {
    if '0' <= c <= '9' {
        Some(c as int - '0' as int)
    } else if 'a' <= c <= 'f' {
        Some(c as int - 'a' as int + 10)
    } else if 'A' <= c <= 'F' {
        Some(c as int - 'A' as int + 10)
    } else {
        None
    }
}

/// The number that two characters spell in base sixteen. A plus sign may
/// stand in place of the first digit.
pub open spec fn hex_pair(c0: char, c1: char) -> Option<int> {
    match hex_value(c1) {
        None => None,
        Some(low) => if c0 == '+' {
            Some(low)
        } else {
            match hex_value(c0) {
                Some(high) => Some(high * 16 + low),
                None => None,
            }
        },
    }
}

/// The number of pairs of characters after the leading mark of a colour.
pub open spec fn color_pairs(s: Seq<char>) -> int {
    (s.len() - 1) / 2
}

/// The `k`-th pair of characters after the leading mark.
pub open spec fn color_pair(s: Seq<char>, k: int) -> Option<int> {
    hex_pair(s[1 + 2 * k], s[2 + 2 * k])
}

/// Whether `s` names a colour: one leading character of one byte (`#`
/// by custom), then at least three pairs of hexadecimal digits, every
/// pair present being well formed. A last character without a partner
/// is passed over.
pub open spec fn is_color(s: Seq<char>) -> bool {
    &&& s.len() >= 7
    &&& (s[0] as u32) < 128
    &&& forall|k: int| 0 <= k < color_pairs(s) ==> (#[trigger] color_pair(s, k)) is Some
}

/// The colour that `s` names: its first three pairs as red, green, blue.
pub open spec fn color_of(s: Seq<char>) -> Rgb {
    Rgb {
        r: color_pair(s, 0).unwrap() as u8,
        g: color_pair(s, 1).unwrap() as u8,
        b: color_pair(s, 2).unwrap() as u8,
    }
}

/// The value of a hexadecimal digit.
pub fn hex_digit(c: char) -> (value: Option<u8>)
    ensures
        match hex_value(c) {
            Some(v) => value == Some(v as u8) && 0 <= v < 16,
            None => value is None,
        },
{
    if '0' <= c && c <= '9' {
        Some((c as u32 - '0' as u32) as u8)
    } else if 'a' <= c && c <= 'f' {
        Some((c as u32 - 'a' as u32 + 10) as u8)
    } else if 'A' <= c && c <= 'F' {
        Some((c as u32 - 'A' as u32 + 10) as u8)
    } else {
        None
    }
}

/// Reads two characters as a number in base sixteen.
pub fn parse_hex_pair(c0: char, c1: char) -> (value: Option<u8>)
    ensures
        match hex_pair(c0, c1) {
            Some(v) => value == Some(v as u8) && 0 <= v < 256,
            None => value is None,
        },
{
    match hex_digit(c1) {
        None => None,
        Some(low) => {
            if c0 == '+' {
                Some(low)
            } else {
                match hex_digit(c0) {
                    Some(high) => Some(high * 16 + low),
                    None => None,
                }
            }
        },
    }
}

/// Reads a colour written as `#rrggbb`. `None` where `color` does not
/// name a colour.
pub fn parse_color(color: &str) -> (parsed: Option<Rgb>)
    ensures
        parsed is Some <==> is_color(color@),
        parsed matches Some(rgb) ==> rgb == color_of(color@),
{
    let chars = to_chars(color);
    if chars.len() < 7 || chars[0] as u32 >= 128 {
        return None;
    }
    let pairs: usize = (chars.len() - 1) / 2;
    let mut values: Vec<u8> = Vec::new();
    let mut k: usize = 0;
    while k < pairs
        invariant
            k <= pairs,
            chars@ == color@,
            chars@.len() >= 7,
            pairs == color_pairs(color@),
            2 * pairs + 1 <= chars@.len() <= usize::MAX,
            values@.len() == k,
            forall|j: int| 0 <= j < k ==> color_pair(color@, j) == Some(values@[j] as int),
        decreases pairs - k,
    {
        match parse_hex_pair(chars[1 + 2 * k], chars[2 + 2 * k]) {
            Some(v) => {
                values.push(v);
            },
            None => {
                assert(color_pair(color@, k as int) is None);
                return None;
            },
        }
        k += 1;
    }
    Some(Rgb { r: values[0], g: values[1], b: values[2] })
}

/// The path of the file that caches the icon of `identity`.
pub open spec fn cache_path(cache_dir: Seq<char>, identity: Seq<char>) -> Seq<char> {
    cache_dir + seq!['/'] + identity + seq!['.', 'j', 'p', 'g']
}

/// The path of the file that caches the icon of the application
/// `identity`: the identity, with the extension `.jpg`, under `cache_dir`.
pub fn icon_path(cache_dir: &str, identity: &str) -> (path: String)
    ensures
        path@ == cache_path(cache_dir@, identity@),
{
    let mut path = cache_dir.to_owned();
    path.push('/');
    path.append(identity);
    path.push('.');
    path.push('j');
    path.push('p');
    path.push('g');
    path
}

/// Two applications share a cached icon exactly when they share their
/// identity: under one cache directory, equal identities give equal
/// paths and different identities give different paths.
pub proof fn cache_path_tells_identities_apart(
    cache_dir: Seq<char>,
    first: Seq<char>,
    second: Seq<char>,
)
    ensures
        (cache_path(cache_dir, first) == cache_path(cache_dir, second)) <==> first == second,
{
    if cache_path(cache_dir, first) == cache_path(cache_dir, second) {
        let p = cache_path(cache_dir, first);
        let q = cache_path(cache_dir, second);
        assert(p.len() == cache_dir.len() + 1 + first.len() + 4);
        assert forall|i: int| 0 <= i < first.len() implies first[i] == second[i] by {
            assert(p[cache_dir.len() + 1 + i] == first[i]);
        }
        assert(first =~= second);
    }
}

/// The picture to cache for a window, from the value of its icon
/// property: the widest icon it offers, the last among equals and never
/// one without width, laid over `bg`.
pub open spec fn extracted(image: RgbImage, data: Seq<u8>, bg: Rgb) -> bool {
    exists|k: int|
        {
            &&& #[trigger] is_widest_last(icons_from(data, 0), k)
            &&& image.width == icons_from(data, 0)[k].width
            &&& image.height == icons_from(data, 0)[k].height
            &&& image.pixels@ == composited(icons_from(data, 0)[k].buf, bg)
        }
}

/// Makes the picture to cache for a window out of the value of its
/// icon property. Fails exactly where the property holds no whole icon
/// that has a width.
pub fn extract_icon(data: &[u8], bg: Rgb) -> (result: Result<RgbImage, NoIconFound>)
    ensures
        result is Err <==> none_to_show(icons_from(data@, 0)),
        result matches Ok(image) ==> extracted(image, data@, bg) && image.pixels@.len()
            == image.width * image.height * 3,
{
    let icons = parse_icons(data);
    match select_largest(&icons) {
        None => Err(NoIconFound),
        Some(k) => {
            let icon = &icons[k];
            let pixels = composite(icon.buf.as_slice(), bg);
            let image = RgbImage { width: icon.width, height: icon.height, pixels };
            assert(icons_from(data@, 0)[k as int] == icons@[k as int]@);
            Ok(image)
        },
    }
}

/// The icon of an application in the cache.
#[derive(Debug, PartialEq, Eq)]
pub struct CachedIcon {
    /// The file of the icon.
    pub path: String,
    /// The picture to store at `path`, where the file is not there yet.
    pub fresh: Option<RgbImage>,
}

/// Makes sure that the cache holds the icon of the application
/// `identity`. `cached` tells whether the file is there already; if it
/// is, its path is the answer and `data` is not looked at. Otherwise
/// the picture is made out of `data`, the value of the window's icon
/// property, and handed back to be stored. Fails exactly where the
/// file is missing and the property holds no whole icon that has a
/// width.
pub fn ensure_icon(cache_dir: &str, identity: &str, cached: bool, data: &[u8], bg: Rgb) -> (result:
    Result<CachedIcon, NoIconFound>)
    ensures
        result is Err <==> !cached && none_to_show(icons_from(data@, 0)),
        result matches Ok(icon) ==> {
            &&& icon.path@ == cache_path(cache_dir@, identity@)
            &&& cached ==> icon.fresh is None
            &&& !cached ==> (icon.fresh matches Some(image) && extracted(image, data@, bg)
                && image.pixels@.len() == image.width * image.height * 3)
        },
{
    let path = icon_path(cache_dir, identity);
    if cached {
        return Ok(CachedIcon { path, fresh: None });
    }
    match extract_icon(data, bg) {
        Ok(image) => Ok(CachedIcon { path, fresh: Some(image) }),
        Err(e) => Err(e),
    }
}

} // verus!
