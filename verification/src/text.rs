//! Small text helpers shared by label formatting and icon naming.

use vstd::prelude::*;

verus! {

/// The uppercase mapping of a character, as `char::to_uppercase` yields it.
pub uninterp spec fn char_uppercase(c: char) -> Seq<char>;

/// The uppercase of an ASCII character: the capital letter of a small
/// letter, the character itself otherwise.
pub open spec fn ascii_upper(c: char) -> char {
    if 'a' <= c <= 'z' {
        ((c as u32 - 32) as u8) as char
    } else {
        c
    }
}

/// The uppercase mapping of a character: for an ASCII character the one
/// character `ascii_upper` gives, for any other character what
/// `char::to_uppercase` yields.
pub open spec fn uppercase(c: char) -> Seq<char> {
    if (c as u32) < 128 {
        seq![ascii_upper(c)]
    } else {
        char_uppercase(c)
    }
}

/// Calls `char::to_uppercase` and collects what it yields.
///
/// Trusted: the result is the uppercase mapping of `c`, which depends on
/// `c` alone; an ASCII small letter gives its capital letter and any
/// other ASCII character gives itself.
#[verifier::external_body]
fn to_uppercase_chars(c: char) -> (upper: Vec<char>)
    ensures
        upper@ == char_uppercase(c),
        (c as u32) < 128 ==> upper@ == seq![ascii_upper(c)],
{
    c.to_uppercase().collect()
}

/// `String::push` appends one character to the end of the string.
pub assume_specification[ String::push ](s: &mut String, c: char)
    ensures
        final(s)@ == old(s)@.push(c),
;

/// `s` with its first character replaced by `upper`; empty stays empty.
pub open spec fn with_first_replaced(s: Seq<char>, upper: Seq<char>) -> Seq<char> {
    if s.len() == 0 {
        s
    } else {
        upper + s.skip(1)
    }
}

/// `s` with its first character replaced by that character's uppercase
/// mapping.
pub open spec fn capitalized(s: Seq<char>) -> Seq<char> {
    if s.len() == 0 {
        s
    } else {
        with_first_replaced(s, uppercase(s[0]))
    }
}

/// Every space replaced by a dash, everything else kept.
pub open spec fn dashed(s: Seq<char>) -> Seq<char> {
    Seq::new(s.len(), |i: int| if s[i] == ' ' { '-' } else { s[i] })
}

/// `n` spaces.
pub open spec fn spaces(n: nat) -> Seq<char> {
    Seq::new(n, |i: int| ' ')
}

/// Appends the characters of `chars` to `out`.
pub fn append_chars(out: &mut String, chars: &Vec<char>)
    ensures
        final(out)@ == old(out)@ + chars@,
{
    let mut i: usize = 0;
    while i < chars.len()
        invariant
            i <= chars.len(),
            out@ == old(out)@ + chars@.take(i as int),
        decreases chars.len() - i,
    {
        out.push(chars[i]);
        i += 1;
    }
}

/// The characters of `s`, one by one.
pub fn to_chars(s: &str) -> (chars: Vec<char>)
    ensures
        chars@ == s@,
{
    let mut chars: Vec<char> = Vec::new();
    for c in it: s.chars()
        invariant
            it.seq() == s@,
            chars@ == s@.take(it.index() as int),
    {
        chars.push(c);
    }
    chars
}

/// The text made of the characters of `chars`.
pub fn from_chars(chars: &Vec<char>) -> (s: String)
    ensures
        s@ == chars@,
{
    let mut s = String::new();
    append_chars(&mut s, chars);
    s
}

/// Whether two texts hold the same characters.
pub fn same_text(a: &str, b: &str) -> (same: bool)
    ensures
        same == (a@ == b@),
{
    let x = to_chars(a);
    let y = to_chars(b);
    if x.len() != y.len() {
        return false;
    }
    let mut i: usize = 0;
    while i < x.len()
        invariant
            i <= x.len(),
            x.len() == y.len(),
            x@ == a@,
            y@ == b@,
            x@.take(i as int) == y@.take(i as int),
        decreases x.len() - i,
    {
        if x[i] != y[i] {
            return false;
        }
        i += 1;
    }
    assert(x@.take(x.len() as int) == x@);
    assert(y@.take(y.len() as int) == y@);
    true
}

/// A text of `n` spaces.
pub fn blank(n: u16) -> (s: String)
    ensures
        s@ == spaces(n as nat),
{
    let mut s = String::new();
    let mut i: u16 = 0;
    while i < n
        invariant
            i <= n,
            s@ == spaces(i as nat),
        decreases n - i,
    {
        s.push(' ');
        i += 1;
    }
    s
}

/// Replaces the first character of `string` by the characters of `upper`.
pub fn replace_first(string: &str, upper: &Vec<char>) -> (out: String)
    ensures
        out@ == with_first_replaced(string@, upper@),
{
    let mut out = String::new();
    let mut first = true;
    for c in it: string.chars()
        invariant
            it.seq() == string@,
            first == (it.index() == 0),
            out@ == with_first_replaced(string@.take(it.index() as int), upper@),
    {
        if first {
            first = false;
            append_chars(&mut out, upper);
        } else {
            out.push(c);
        }
    }
    out
}

/// Capitalizes the first letter of the string: `foo` becomes `Foo`.
pub fn capitalize_first(string: &str) -> (out: String)
    ensures
        out@ == capitalized(string@),
{
    if string.unicode_len() == 0 {
        return String::new();
    }
    let upper = to_uppercase_chars(string.get_char(0));
    replace_first(string, &upper)
}

/// The icon name of a window class: the class with spaces turned to dashes.
pub fn get_icon_name(wm_class: &str) -> (name: String)
    ensures
        name@ == dashed(wm_class@),
{
    let mut name = String::new();
    for c in it: wm_class.chars()
        invariant
            it.seq() == wm_class@,
            name@ == dashed(wm_class@).take(it.index() as int),
    {
        let d: char = if c == ' ' { '-' } else { c };
        name.push(d);
    }
    name
}

} // verus!
