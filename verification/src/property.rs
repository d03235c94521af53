//! Decoding of window properties: the display name of a window, its class,
//! and whether it is fullscreen.
//!
//! The caller reads the raw property values from the windowing system;
//! everything here works on those bytes.

use crate::config::{PrintInfoSettings, WindowInfoType};
use vstd::prelude::*;
use vstd::utf8::{decode_utf8, valid_utf8};

verus! {

/// The display name of a window and the kind of property it was read from.
#[derive(Debug, PartialEq, Eq)]
pub struct WindowInfo {
    pub info: String,
    pub info_type: WindowInfoType,
}

impl Clone for WindowInfo {
    fn clone(&self) -> (copy: Self)
        ensures
            copy == *self,
    {
        WindowInfo { info: self.info.clone(), info_type: self.info_type }
    }
}

impl WindowInfo {
    /// The line printed for this window: the gap, then the formatted name.
    pub fn print(&self, gap: &str, settings: &PrintInfoSettings) -> (line: String)
        ensures
            line@ == gap@ + settings.formatted(self.info@, Some(self.info_type)),
    {
        let label = settings.format_info(self.info.as_str(), Some(self.info_type));
        gap.to_owned().concat(label.as_str())
    }
}

/// The label of a desktop without windows.
#[derive(Debug, PartialEq, Eq)]
pub struct EmptyInfo {
    pub info: String,
}

impl Clone for EmptyInfo {
    fn clone(&self) -> (copy: Self)
        ensures
            copy == *self,
    {
        EmptyInfo { info: self.info.clone() }
    }
}

impl EmptyInfo {
    /// The line printed for an empty desktop: the gap, then the label as
    /// it stands.
    pub fn print(&self, gap: &str) -> (line: String)
        ensures
            line@ == gap@ + self.info@,
    {
        gap.to_owned().concat(self.info.as_str())
    }
}

/// A property of a window that holds text.
#[derive(Clone, Copy, Debug, PartialEq, Eq, Structural)]
pub enum PropertyKind {
    /// `WM_CLASS`: two fields, each closed by a zero byte.
    WmClass,
    /// `WM_NAME`.
    WmName,
    /// `_NET_WM_NAME`.
    NetWmName,
    /// `_NET_WM_VISIBLE_NAME`.
    NetWmVisibleName,
}

impl WindowInfoType {
    /// The property that a name of this kind is read from.
    pub open spec fn property(self) -> PropertyKind {
        match self {
            WindowInfoType::WmInstance => PropertyKind::WmClass,
            WindowInfoType::WmClass => PropertyKind::WmClass,
            WindowInfoType::WmName => PropertyKind::WmName,
            WindowInfoType::NetWmName => PropertyKind::NetWmName,
            WindowInfoType::NetWmVisibleName => PropertyKind::NetWmVisibleName,
        }
    }

    /// The property that a name of this kind is read from.
    pub fn property_kind(self) -> (kind: PropertyKind)
        ensures
            kind == self.property(),
    {
        match self {
            WindowInfoType::WmInstance => PropertyKind::WmClass,
            WindowInfoType::WmClass => PropertyKind::WmClass,
            WindowInfoType::WmName => PropertyKind::WmName,
            WindowInfoType::NetWmName => PropertyKind::NetWmName,
            WindowInfoType::NetWmVisibleName => PropertyKind::NetWmVisibleName,
        }
    }
}

/// What `String::from_utf8_lossy` makes of `bytes`.
pub uninterp spec fn utf8_lossy(bytes: Seq<u8>) -> Seq<char>;

/// Calls `String::from_utf8_lossy`.
///
/// Trusted: the result depends on the bytes alone, and valid UTF-8 is
/// decoded as it stands.
#[verifier::external_body]
fn lossy_text(bytes: &[u8]) -> (text: String)
    ensures
        text@ == utf8_lossy(bytes@),
        valid_utf8(bytes@) ==> text@ == decode_utf8(bytes@),
{
    String::from_utf8_lossy(bytes).into_owned()
}

/// Calls `String::from_utf8`.
///
/// Trusted: the call succeeds exactly on valid UTF-8, and then gives the
/// text that the bytes encode.
#[verifier::external_body]
pub(crate) fn strict_text(bytes: Vec<u8>) -> (text: Option<String>)
    ensures
        text is Some <==> valid_utf8(bytes@),
        text matches Some(t) ==> t@ == decode_utf8(bytes@),
{
    String::from_utf8(bytes).ok()
}

/// The end of the field that starts at `from`: the position of the first
/// zero byte at or after `from`, or the length of `value` if there is none.
pub open spec fn field_end(value: Seq<u8>, from: int) -> int
    decreases value.len() - from,
{
    if from < 0 || from >= value.len() {
        value.len() as int
    } else if value[from] == 0 {
        from
    } else {
        field_end(value, from + 1)
    }
}

/// The first of the fields that zero bytes part `value` into.
pub open spec fn first_field(value: Seq<u8>) -> Seq<u8> {
    value.subrange(0, field_end(value, 0))
}

/// The second of the fields that zero bytes part `value` into, if `value`
/// holds a zero byte at all.
pub open spec fn second_field(value: Seq<u8>) -> Option<Seq<u8>> {
    let first_end = field_end(value, 0);
    if first_end < value.len() {
        Some(value.subrange(first_end + 1, field_end(value, first_end + 1)))
    } else {
        None
    }
}

/// The bytes that a name of kind `info_type` is made of, given the value
/// of the property it is read from.
pub open spec fn name_bytes(info_type: WindowInfoType, value: Seq<u8>) -> Option<Seq<u8>> {
    match info_type {
        WindowInfoType::WmClass => Some(first_field(value)),
        WindowInfoType::WmInstance => second_field(value),
        _ => Some(value),
    }
}

/// Whether the property value `value` gives a name of kind `info_type`
/// that is not empty.
pub open spec fn has_name(info_type: WindowInfoType, value: Seq<u8>) -> bool {
    name_bytes(info_type, value) matches Some(bytes) && bytes.len() > 0
}

/// Whether `k` is the first position at which a kind has a name.
pub open spec fn is_first_named(
    info_types: Seq<WindowInfoType>,
    values: Seq<Vec<u8>>,
    k: int,
) -> bool {
    &&& 0 <= k < info_types.len()
    &&& has_name(info_types[k], values[k]@)
    &&& forall|j: int| 0 <= j < k ==> !has_name(info_types[j], values[j]@)
}

/// Whether no kind has a name.
pub open spec fn none_named(info_types: Seq<WindowInfoType>, values: Seq<Vec<u8>>) -> bool {
    forall|j: int| 0 <= j < info_types.len() ==> !has_name(info_types[j], values[j]@)
}

/// The position of the first zero byte at or after `from`, or the length.
pub fn find_field_end(value: &[u8], from: usize) -> (end: usize)
    requires
        from <= value@.len(),
    ensures
        end == field_end(value@, from as int),
        from <= end <= value@.len(),
{
    let mut i: usize = from;
    while i < value.len() && value[i] != 0
        invariant
            from <= i <= value@.len(),
            field_end(value@, from as int) == field_end(value@, i as int),
        decreases value@.len() - i,
    {
        i += 1;
    }
    i
}

/// A copy of the bytes of `value` from `from` up to `to`.
pub fn copy_range(value: &[u8], from: usize, to: usize) -> (bytes: Vec<u8>)
    requires
        from <= to <= value@.len(),
    ensures
        bytes@ == value@.subrange(from as int, to as int),
{
    let mut bytes: Vec<u8> = Vec::new();
    let mut i: usize = from;
    while i < to
        invariant
            from <= i <= to <= value@.len(),
            bytes@ == value@.subrange(from as int, i as int),
        decreases to - i,
    {
        bytes.push(value[i]);
        i += 1;
    }
    bytes
}

/// The bytes of the name of kind `info_type` in the property value
/// `value`: the first field of `WM_CLASS` for the class, the second for
/// the instance, the whole value for the other kinds.
pub fn extract_name_bytes(info_type: WindowInfoType, value: &[u8]) -> (bytes: Option<Vec<u8>>)
    ensures
        match name_bytes(info_type, value@) {
            Some(expected) => bytes matches Some(b) && b@ == expected,
            None => bytes is None,
        },
{
    match info_type {
        WindowInfoType::WmClass => {
            let end = find_field_end(value, 0);
            Some(copy_range(value, 0, end))
        },
        WindowInfoType::WmInstance => {
            let first_end = find_field_end(value, 0);
            if first_end < value.len() {
                let end = find_field_end(value, first_end + 1);
                Some(copy_range(value, first_end + 1, end))
            } else {
                None
            }
        },
        _ => {
            let whole = copy_range(value, 0, value.len());
            Some(whole)
        },
    }
}

/// Picks the name of a window: the kinds are tried in order, each on the
/// value of its own property, and the first name that is not empty wins.
/// Gives the position of the winning kind and the bytes of the name, or
/// `None` where every kind comes out empty.
pub fn select_name(info_types: &[WindowInfoType], values: &Vec<Vec<u8>>) -> (found: Option<
    (usize, Vec<u8>),
>)
    requires
        values@.len() == info_types@.len(),
    ensures
        match found {
            Some((k, bytes)) => is_first_named(info_types@, values@, k as int) && Some(bytes@)
                == name_bytes(info_types@[k as int], values@[k as int]@),
            None => none_named(info_types@, values@),
        },
{
    let mut i: usize = 0;
    while i < info_types.len()
        invariant
            i <= info_types@.len(),
            values@.len() == info_types@.len(),
            forall|j: int| 0 <= j < i ==> !has_name(info_types@[j], values@[j]@),
        decreases info_types@.len() - i,
    {
        let candidate = extract_name_bytes(info_types[i], values[i].as_slice());
        if let Some(bytes) = candidate {
            if bytes.len() > 0 {
                return Some((i, bytes));
            }
        }
        i += 1;
    }
    None
}

/// Whether `text` is `bytes` read as text with invalid bytes replaced.
/// Bytes that are valid UTF-8 read as the text they encode.
pub open spec fn reads_as(bytes: Seq<u8>, text: Seq<char>) -> bool {
    &&& text == utf8_lossy(bytes)
    &&& valid_utf8(bytes) ==> text == decode_utf8(bytes)
}

/// The window's name as it follows from `select_name`'s answer: the
/// bytes read as text, with the kind that gave them; or the empty name
/// with the last kind tried.
pub open spec fn window_info_matches(
    info: WindowInfo,
    info_types: Seq<WindowInfoType>,
    values: Seq<Vec<u8>>,
) -> bool {
    if none_named(info_types, values) {
        &&& info.info@ == Seq::<char>::empty()
        &&& info.info_type == info_types.last()
    } else {
        exists|k: int|
            {
                &&& #[trigger] is_first_named(info_types, values, k)
                &&& info.info_type == info_types[k]
                &&& reads_as(name_bytes(info_types[k], values[k]@).unwrap(), info.info@)
            }
    }
}

/// The display name of a window. `values` holds, for each kind in
/// `info_types`, the value of the property that the kind is read from.
/// The first kind with a name that is not empty gives the name, read as
/// text with invalid bytes replaced; if there is none, the name is empty
/// and its kind is the last one tried.
pub fn get_window_info(info_types: &[WindowInfoType], values: &Vec<Vec<u8>>) -> (info:
    WindowInfo)
    requires
        info_types@.len() > 0,
        values@.len() == info_types@.len(),
    ensures
        window_info_matches(info, info_types@, values@),
{
    match select_name(info_types, values) {
        Some((k, bytes)) => {
            let info = WindowInfo { info: lossy_text(bytes.as_slice()), info_type: info_types[k] };
            info
        },
        None => WindowInfo {
            info: String::new(),
            info_type: info_types[info_types.len() - 1],
        },
    }
}

/// Once a kind has given a name, the properties of the kinds after it
/// need not be read: the name found among the first `n` kinds is the
/// name found among all of them.
pub proof fn later_readings_do_not_matter(
    info: WindowInfo,
    info_types: Seq<WindowInfoType>,
    values: Seq<Vec<u8>>,
    n: int,
)
    requires
        0 <= n <= info_types.len(),
        n <= values.len(),
        !none_named(info_types.take(n), values.take(n)),
        window_info_matches(info, info_types.take(n), values.take(n)),
    ensures
        window_info_matches(info, info_types, values),
{
    let k = choose|k: int|
        {
            &&& #[trigger] is_first_named(info_types.take(n), values.take(n), k)
            &&& info.info_type == info_types.take(n)[k]
            &&& reads_as(
                name_bytes(info_types.take(n)[k], values.take(n)[k]@).unwrap(),
                info.info@,
            )
        };
    assert(info_types.take(n)[k] == info_types[k]);
    assert(values.take(n)[k] == values[k]);
    assert forall|j: int| 0 <= j < k implies !has_name(info_types[j], values[j]@) by {
        assert(info_types.take(n)[j] == info_types[j]);
        assert(values.take(n)[j] == values[j]);
    }
    assert(is_first_named(info_types, values, k));
}

/// Why a property could not be read as text.
#[derive(Clone, Copy, Debug, PartialEq, Eq, Structural)]
pub enum PropertyError {
    /// The bytes are not valid UTF-8.
    InvalidUtf8,
}

/// The bytes of the class of a window in its `WM_CLASS` value: the second
/// field where there is one, else the first.
pub open spec fn class_bytes(value: Seq<u8>) -> Seq<u8> {
    match second_field(value) {
        Some(second) => second,
        None => first_field(value),
    }
}

/// The bytes of the class of a window in its `WM_CLASS` value.
pub fn extract_class_bytes(value: &[u8]) -> (bytes: Vec<u8>)
    ensures
        bytes@ == class_bytes(value@),
{
    let first_end = find_field_end(value, 0);
    if first_end < value.len() {
        let end = find_field_end(value, first_end + 1);
        copy_range(value, first_end + 1, end)
    } else {
        copy_range(value, 0, first_end)
    }
}

/// The class of a window, from the value of its `WM_CLASS` property: the
/// second field where there is one, else the first, read as UTF-8.
pub fn get_wm_class(value: &[u8]) -> (class: Result<String, PropertyError>)
    ensures
        class is Ok <==> valid_utf8(class_bytes(value@)),
        class matches Ok(text) ==> text@ == decode_utf8(class_bytes(value@)),
        class matches Err(e) ==> e == PropertyError::InvalidUtf8,
{
    match strict_text(extract_class_bytes(value)) {
        Some(text) => Ok(text),
        None => Err(PropertyError::InvalidUtf8),
    }
}

/// The number that the four bytes of `data` from `at` on encode, least
/// significant byte first.
pub open spec fn le_word(data: Seq<u8>, at: int) -> u32 {
    (data[at] + 256 * data[at + 1] + 65536 * data[at + 2] + 16777216 * data[at + 3]) as u32
}

/// Reads the four bytes of `data` from `at` on as a number, least
/// significant byte first.
pub fn read_le_word(data: &[u8], at: usize) -> (word: u32)
    requires
        at + 4 <= data@.len(),
    ensures
        word == le_word(data@, at as int),
{
    let b0: u32 = data[at] as u32;
    let b1: u32 = data[at + 1] as u32;
    let b2: u32 = data[at + 2] as u32;
    let b3: u32 = data[at + 3] as u32;
    b0 + 256 * b1 + 65536 * b2 + 16777216 * b3
}

/// The `k`-th atom of a `_NET_WM_STATE` value: four bytes, least
/// significant first.
pub open spec fn atom_at(data: Seq<u8>, k: int) -> u32 {
    le_word(data, 4 * k)
}

/// Whether one of the atoms in `data` is `atom`. Bytes after the last
/// whole atom do not count.
pub open spec fn holds_atom(data: Seq<u8>, atom: u32) -> bool {
    exists|k: int| 0 <= k < data.len() / 4 && #[trigger] atom_at(data, k) == atom
}

/// Whether a window is fullscreen, from the value of its `_NET_WM_STATE`
/// property and the atom that stands for the fullscreen state.
pub fn is_window_fullscreen(data: &[u8], fullscreen_atom: u32) -> (fullscreen: bool)
    ensures
        fullscreen == holds_atom(data@, fullscreen_atom),
{
    let count: usize = data.len() / 4;
    let mut k: usize = 0;
    while k < count
        invariant
            k <= count,
            count == data@.len() / 4,
            4 * count <= data@.len() <= usize::MAX,
            forall|j: int| 0 <= j < k ==> atom_at(data@, j) != fullscreen_atom,
        decreases count - k,
    {
        if read_le_word(data, 4 * k) == fullscreen_atom {
            assert(atom_at(data@, k as int) == fullscreen_atom);
            return true;
        }
        k += 1;
    }
    false
}

} // verus!
