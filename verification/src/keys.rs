//! Keyboard input: key events as the terminal reports them, and the raw bytes
//! a key sends to a program running in a pseudo-terminal.

use vstd::prelude::*;
use crate::text::ascii_lower;

verus! {

/// A key of the keyboard.
#[derive(Debug, Clone, Copy, PartialEq, Eq, Structural)]
pub enum KeyCode {
    Backspace,
    Enter,
    Left,
    Right,
    Up,
    Down,
    Home,
    End,
    PageUp,
    PageDown,
    Tab,
    BackTab,
    Delete,
    Insert,
    F(u8),
    Char(char),
    Null,
    Esc,
    /// Any other key (lock, media and modifier keys).
    Other,
}

/// The modifier keys held with a key.
#[derive(Debug, Clone, Copy, PartialEq, Eq, Structural)]
pub struct KeyModifiers {
    pub shift: bool,
    pub control: bool,
    pub alt: bool,
    /// Super, hyper or meta.
    pub other: bool,
}

impl KeyModifiers {
    /// No modifier.
    pub fn none() -> (r: KeyModifiers)
        ensures
            r.is_none(),
    {
        KeyModifiers { shift: false, control: false, alt: false, other: false }
    }

    /// Control alone.
    pub fn control_only() -> (r: KeyModifiers)
        ensures
            r.control && !r.shift && !r.alt && !r.other,
    {
        KeyModifiers { shift: false, control: true, alt: false, other: false }
    }

    /// Shift alone.
    pub fn shift_only() -> (r: KeyModifiers)
        ensures
            r.shift && !r.control && !r.alt && !r.other,
    {
        KeyModifiers { shift: true, control: false, alt: false, other: false }
    }

    /// Alt alone.
    pub fn alt_only() -> (r: KeyModifiers)
        ensures
            r.alt && !r.control && !r.shift && !r.other,
    {
        KeyModifiers { shift: false, control: false, alt: true, other: false }
    }

    /// No modifier is held.
    pub open spec fn is_none(self) -> bool {
        !self.shift && !self.control && !self.alt && !self.other
    }

    /// No modifier is held.
    pub fn is_empty(&self) -> (r: bool)
        ensures
            r == self.is_none(),
    {
        !self.shift && !self.control && !self.alt && !self.other
    }

    /// Every modifier of `other` is held.
    pub open spec fn spec_contains(self, other: KeyModifiers) -> bool {
        (other.shift ==> self.shift) && (other.control ==> self.control) && (other.alt
            ==> self.alt) && (other.other ==> self.other)
    }

    /// Every modifier of `other` is held.
    pub fn contains(&self, other: KeyModifiers) -> (r: bool)
        ensures
            r == self.spec_contains(other),
    {
        (!other.shift || self.shift) && (!other.control || self.control) && (!other.alt
            || self.alt) && (!other.other || self.other)
    }
}

/// A key press.
#[derive(Debug, Clone, Copy, PartialEq, Eq, Structural)]
pub struct KeyEvent {
    pub code: KeyCode,
    pub modifiers: KeyModifiers,
}

impl KeyEvent {
    /// A key pressed with the given modifiers.
    pub fn new(code: KeyCode, modifiers: KeyModifiers) -> (r: KeyEvent)
        ensures
            r.code == code,
            r.modifiers == modifiers,
    {
        KeyEvent { code, modifiers }
    }

    /// A key pressed with no modifier.
    pub fn plain(code: KeyCode) -> (r: KeyEvent)
        ensures
            r.code == code,
            r.modifiers.is_none(),
    {
        KeyEvent { code, modifiers: KeyModifiers::none() }
    }
}

/// Up to eight bytes that a key sends, held without allocation.
pub struct KeyBytes {
    buf: [u8; 8],
    len: usize,
}

impl View for KeyBytes {
    type V = Seq<u8>;

    closed spec fn view(&self) -> Seq<u8> {
        self.buf@.take(self.len as int)
    }
}

impl KeyBytes {
    /// The buffer holds at least `len` bytes.
    pub closed spec fn wf(&self) -> bool {
        self.len <= 8
    }

    /// No bytes.
    pub fn empty() -> (r: KeyBytes)
        ensures
            r.wf(),
            r@ == Seq::<u8>::empty(),
    {
        let r = KeyBytes { buf: [0u8; 8], len: 0 };
        assert(r.buf@.take(0) =~= Seq::<u8>::empty());
        r
    }

    /// The first eight bytes of `s` (all of them when there are fewer).
    pub fn from_slice(s: &[u8]) -> (r: KeyBytes)
        ensures
            r.wf(),
            r@ == if s@.len() <= 8 {
                s@
            } else {
                s@.take(8)
            },
    {
        let mut buf = [0u8; 8];
        let len: usize = if s.len() < 8 {
            s.len()
        } else {
            8
        };
        let mut i: usize = 0;
        while i < len
            invariant
                i <= len,
                len <= 8,
                len <= s@.len(),
                buf@.len() == 8,
                buf@.take(i as int) == s@.take(i as int),
            decreases len - i,
        {
            buf[i] = s[i];
            assert(buf@.take(i + 1) =~= s@.take(i + 1));
            i += 1;
        }
        let r = KeyBytes { buf, len };
        assert(r@ =~= if s@.len() <= 8 {
            s@
        } else {
            s@.take(8)
        });
        r
    }

    /// The bytes held.
    pub fn as_slice(&self) -> (r: &[u8])
        requires
            self.wf(),
        ensures
            r@ == self@,
    {
        let all = vstd::array::array_as_slice(&self.buf);
        proof {
            vstd::array::axiom_spec_array_as_slice(&self.buf);
        }
        vstd::slice::slice_subrange(all, 0, self.len)
    }
}

/// The UTF-8 encoding of a character.
fn char_utf8(c: char) -> (r: Vec<u8>)
    ensures
        r@ == vstd::utf8::encode_scalar(c as u32),
{
    let n = c as u32;
    let mut v: Vec<u8> = Vec::new();
    if n <= 0x7F {
        v.push((n & 0x7F) as u8);
    } else if n <= 0x7FF {
        v.push(0xC0 | ((n >> 6) & 0x1F) as u8);
        v.push(0x80 | (n & 0x3F) as u8);
    } else if n <= 0xFFFF && !(0xD800 <= n && n <= 0xDFFF) {
        v.push(0xE0 | ((n >> 12) & 0x0F) as u8);
        v.push(0x80 | ((n >> 6) & 0x3F) as u8);
        v.push(0x80 | (n & 0x3F) as u8);
    } else {
        v.push(0xF0 | ((n >> 18) & 0x7) as u8);
        v.push(0x80 | ((n >> 12) & 0x3F) as u8);
        v.push(0x80 | ((n >> 6) & 0x3F) as u8);
        v.push(0x80 | (n & 0x3F) as u8);
    }
    proof {
        assert(v@ =~= vstd::utf8::encode_scalar(n));
    }
    v
}

/// The control byte that Ctrl with a character sends: the character's
/// lowercase letter, as a byte, counted from `a` = 1 (wrapping).
pub open spec fn control_byte(c: char) -> u8 {
    (((ascii_lower(c) as u32) % 256) as u8).wrapping_sub(97).wrapping_add(1)
}

/// The escape sequence of an arrow key (`final_byte` is `A` to `D`), with the
/// xterm modifier code for Ctrl (5) or Shift (2).
pub open spec fn arrow_bytes(final_byte: u8, ctrl: bool, shift: bool) -> Seq<u8> {
    if ctrl {
        seq![0x1bu8, 0x5bu8, 0x31u8, 0x3bu8, 0x35u8, final_byte]
    } else if shift {
        seq![0x1bu8, 0x5bu8, 0x31u8, 0x3bu8, 0x32u8, final_byte]
    } else {
        seq![0x1bu8, 0x5bu8, final_byte]
    }
}

/// The escape sequence of function key `n` (empty for keys past F12).
pub open spec fn function_key_bytes(n: u8) -> Seq<u8> {
    if n == 1 {
        seq![0x1bu8, 0x4fu8, 0x50u8]
    } else if n == 2 {
        seq![0x1bu8, 0x4fu8, 0x51u8]
    } else if n == 3 {
        seq![0x1bu8, 0x4fu8, 0x52u8]
    } else if n == 4 {
        seq![0x1bu8, 0x4fu8, 0x53u8]
    } else if n == 5 {
        seq![0x1bu8, 0x5bu8, 0x31u8, 0x35u8, 0x7eu8]
    } else if n == 6 {
        seq![0x1bu8, 0x5bu8, 0x31u8, 0x37u8, 0x7eu8]
    } else if n == 7 {
        seq![0x1bu8, 0x5bu8, 0x31u8, 0x38u8, 0x7eu8]
    } else if n == 8 {
        seq![0x1bu8, 0x5bu8, 0x31u8, 0x39u8, 0x7eu8]
    } else if n == 9 {
        seq![0x1bu8, 0x5bu8, 0x32u8, 0x30u8, 0x7eu8]
    } else if n == 10 {
        seq![0x1bu8, 0x5bu8, 0x32u8, 0x31u8, 0x7eu8]
    } else if n == 11 {
        seq![0x1bu8, 0x5bu8, 0x32u8, 0x33u8, 0x7eu8]
    } else if n == 12 {
        seq![0x1bu8, 0x5bu8, 0x32u8, 0x34u8, 0x7eu8]
    } else {
        Seq::empty()
    }
}

/// The bytes a terminal sends for a key press.
pub open spec fn key_sequence(key: KeyEvent) -> Seq<u8> {
    let ctrl = key.modifiers.control;
    let alt = key.modifiers.alt;
    let shift = key.modifiers.shift;
    match key.code {
        KeyCode::Char(c) => if ctrl {
            if alt {
                seq![0x1bu8, control_byte(c)]
            } else {
                seq![control_byte(c)]
            }
        } else if alt {
            seq![0x1bu8] + vstd::utf8::encode_scalar(c as u32)
        } else {
            vstd::utf8::encode_scalar(c as u32)
        },
        KeyCode::Enter => seq![0x0du8],
        KeyCode::Esc => seq![0x1bu8],
        KeyCode::Backspace => seq![0x7fu8],
        KeyCode::Tab => seq![0x09u8],
        KeyCode::BackTab => seq![0x1bu8, 0x5bu8, 0x5au8],
        KeyCode::Up => arrow_bytes(0x41, ctrl, shift),
        KeyCode::Down => arrow_bytes(0x42, ctrl, shift),
        KeyCode::Right => arrow_bytes(0x43, ctrl, shift),
        KeyCode::Left => arrow_bytes(0x44, ctrl, shift),
        KeyCode::Home => seq![0x1bu8, 0x5bu8, 0x48u8],
        KeyCode::End => seq![0x1bu8, 0x5bu8, 0x46u8],
        KeyCode::PageUp => seq![0x1bu8, 0x5bu8, 0x35u8, 0x7eu8],
        KeyCode::PageDown => seq![0x1bu8, 0x5bu8, 0x36u8, 0x7eu8],
        KeyCode::Insert => seq![0x1bu8, 0x5bu8, 0x32u8, 0x7eu8],
        KeyCode::Delete => seq![0x1bu8, 0x5bu8, 0x33u8, 0x7eu8],
        KeyCode::F(n) => function_key_bytes(n),
        _ => Seq::empty(),
    }
}

fn arrow(final_byte: u8, ctrl: bool, shift: bool) -> (r: KeyBytes)
    ensures
        r.wf(),
        r@ == arrow_bytes(final_byte, ctrl, shift),
{
    if ctrl {
        let b = [0x1bu8, 0x5b, 0x31, 0x3b, 0x35, final_byte];
        let r = KeyBytes::from_slice(&b);
        assert(r@ =~= arrow_bytes(final_byte, ctrl, shift));
        r
    } else if shift {
        let b = [0x1bu8, 0x5b, 0x31, 0x3b, 0x32, final_byte];
        let r = KeyBytes::from_slice(&b);
        assert(r@ =~= arrow_bytes(final_byte, ctrl, shift));
        r
    } else {
        let b = [0x1bu8, 0x5b, final_byte];
        let r = KeyBytes::from_slice(&b);
        assert(r@ =~= arrow_bytes(final_byte, ctrl, shift));
        r
    }
}

fn bytes3(a: u8, b: u8, c: u8) -> (r: KeyBytes)
    ensures
        r.wf(),
        r@ == seq![a, b, c],
{
    let s = [a, b, c];
    let r = KeyBytes::from_slice(&s);
    assert(r@ =~= seq![a, b, c]);
    r
}

fn bytes4(a: u8, b: u8, c: u8, d: u8) -> (r: KeyBytes)
    ensures
        r.wf(),
        r@ == seq![a, b, c, d],
{
    let s = [a, b, c, d];
    let r = KeyBytes::from_slice(&s);
    assert(r@ =~= seq![a, b, c, d]);
    r
}

fn bytes5(a: u8, b: u8, c: u8, d: u8, e: u8) -> (r: KeyBytes)
    ensures
        r.wf(),
        r@ == seq![a, b, c, d, e],
{
    let s = [a, b, c, d, e];
    let r = KeyBytes::from_slice(&s);
    assert(r@ =~= seq![a, b, c, d, e]);
    r
}

fn function_key(n: u8) -> (r: KeyBytes)
    ensures
        r.wf(),
        r@ == function_key_bytes(n),
{
    match n {
        1 => bytes3(0x1b, 0x4f, 0x50),
        2 => bytes3(0x1b, 0x4f, 0x51),
        3 => bytes3(0x1b, 0x4f, 0x52),
        4 => bytes3(0x1b, 0x4f, 0x53),
        5 => bytes5(0x1b, 0x5b, 0x31, 0x35, 0x7e),
        6 => bytes5(0x1b, 0x5b, 0x31, 0x37, 0x7e),
        7 => bytes5(0x1b, 0x5b, 0x31, 0x38, 0x7e),
        8 => bytes5(0x1b, 0x5b, 0x31, 0x39, 0x7e),
        9 => bytes5(0x1b, 0x5b, 0x32, 0x30, 0x7e),
        10 => bytes5(0x1b, 0x5b, 0x32, 0x31, 0x7e),
        11 => bytes5(0x1b, 0x5b, 0x32, 0x33, 0x7e),
        12 => bytes5(0x1b, 0x5b, 0x32, 0x34, 0x7e),
        _ => KeyBytes::empty(),
    }
}

/// Convert a key event to the raw terminal bytes it sends to a program in a
/// pseudo-terminal.
pub fn key_to_bytes(key: KeyEvent) -> (r: KeyBytes)
    ensures
        r.wf(),
        r@ == key_sequence(key),
{
    let ctrl = key.modifiers.contains(KeyModifiers::control_only());
    let alt = key.modifiers.contains(KeyModifiers::alt_only());
    let shift = key.modifiers.contains(KeyModifiers::shift_only());
    match key.code {
        KeyCode::Char(c) => {
            if ctrl {
                let lower = crate::text::char_to_ascii_lowercase(c);
                let low_byte: u8 = (lower as u32 % 256) as u8;
                let ctrl_byte = low_byte.wrapping_sub(0x61).wrapping_add(1);
                if alt {
                    let s = [0x1bu8, ctrl_byte];
                    let r = KeyBytes::from_slice(&s);
                    assert(r@ =~= key_sequence(key));
                    r
                } else {
                    let s = [ctrl_byte];
                    let r = KeyBytes::from_slice(&s);
                    assert(r@ =~= key_sequence(key));
                    r
                }
            } else {
                let enc = char_utf8(c);
                proof {
                    assert(enc@.len() <= 4);
                }
                if alt {
                    let mut v: Vec<u8> = Vec::new();
                    v.push(0x1b);
                    let mut i: usize = 0;
                    while i < enc.len()
                        invariant
                            i <= enc@.len(),
                            v@ == seq![0x1bu8] + enc@.take(i as int),
                        decreases enc@.len() - i,
                    {
                        v.push(enc[i]);
                        assert(enc@.take(i + 1) =~= enc@.take(i as int).push(enc@[i as int]));
                        i += 1;
                    }
                    assert(enc@.take(enc@.len() as int) =~= enc@);
                    let r = KeyBytes::from_slice(v.as_slice());
                    assert(r@ =~= key_sequence(key));
                    r
                } else {
                    let r = KeyBytes::from_slice(enc.as_slice());
                    assert(r@ =~= key_sequence(key));
                    r
                }
            }
        },
        KeyCode::Enter => {
            let s = [0x0du8];
            let r = KeyBytes::from_slice(&s);
            assert(r@ =~= key_sequence(key));
            r
        },
        KeyCode::Esc => {
            let s = [0x1bu8];
            let r = KeyBytes::from_slice(&s);
            assert(r@ =~= key_sequence(key));
            r
        },
        KeyCode::Backspace => {
            let s = [0x7fu8];
            let r = KeyBytes::from_slice(&s);
            assert(r@ =~= key_sequence(key));
            r
        },
        KeyCode::Tab => {
            let s = [0x09u8];
            let r = KeyBytes::from_slice(&s);
            assert(r@ =~= key_sequence(key));
            r
        },
        KeyCode::BackTab => bytes3(0x1b, 0x5b, 0x5a),
        KeyCode::Up => arrow(0x41, ctrl, shift),
        KeyCode::Down => arrow(0x42, ctrl, shift),
        KeyCode::Right => arrow(0x43, ctrl, shift),
        KeyCode::Left => arrow(0x44, ctrl, shift),
        KeyCode::Home => bytes3(0x1b, 0x5b, 0x48),
        KeyCode::End => bytes3(0x1b, 0x5b, 0x46),
        KeyCode::PageUp => bytes4(0x1b, 0x5b, 0x35, 0x7e),
        KeyCode::PageDown => bytes4(0x1b, 0x5b, 0x36, 0x7e),
        KeyCode::Insert => bytes4(0x1b, 0x5b, 0x32, 0x7e),
        KeyCode::Delete => bytes4(0x1b, 0x5b, 0x33, 0x7e),
        KeyCode::F(n) => function_key(n),
        _ => {
            let r = KeyBytes::empty();
            assert(r@ =~= key_sequence(key));
            r
        },
    }
}

/// Each arrow key is sent as an ANSI cursor sequence: ESC `[`, then `1;5`
/// with Ctrl or `1;2` with Shift alone, then `A` for Up, `B` for Down, `C`
/// for Right and `D` for Left.
pub proof fn lemma_arrow_key_sequences(key: KeyEvent)
    requires
        key.code is Up || key.code is Down || key.code is Right || key.code is Left,
    ensures
        key_sequence(key).len() == (if key.modifiers.control || key.modifiers.shift {
            6int
        } else {
            3int
        }),
        key_sequence(key)[0] == 0x1bu8,
        key_sequence(key)[1] == 0x5bu8,
        key.modifiers.control ==> key_sequence(key).subrange(2, 5) == seq![0x31u8, 0x3bu8, 0x35u8],
        !key.modifiers.control && key.modifiers.shift ==> key_sequence(key).subrange(2, 5) == seq![
            0x31u8,
            0x3bu8,
            0x32u8,
        ],
        key.code is Up ==> key_sequence(key).last() == 0x41u8,
        key.code is Down ==> key_sequence(key).last() == 0x42u8,
        key.code is Right ==> key_sequence(key).last() == 0x43u8,
        key.code is Left ==> key_sequence(key).last() == 0x44u8,
{
    assert(key_sequence(key).subrange(2, 5) =~= if key.modifiers.control {
        seq![0x31u8, 0x3bu8, 0x35u8]
    } else {
        key_sequence(key).subrange(2, 5)
    });
    assert(!key.modifiers.control && key.modifiers.shift ==> key_sequence(key).subrange(2, 5) =~= seq![
        0x31u8,
        0x3bu8,
        0x32u8,
    ]);
}

/// Two different arrow keys pressed with the same modifiers send different
/// bytes.
pub proof fn lemma_arrow_keys_distinct(a: KeyEvent, b: KeyEvent)
    requires
        a.code is Up || a.code is Down || a.code is Right || a.code is Left,
        b.code is Up || b.code is Down || b.code is Right || b.code is Left,
        a.code != b.code,
        a.modifiers == b.modifiers,
    ensures
        key_sequence(a) != key_sequence(b),
{
    lemma_arrow_key_sequences(a);
    lemma_arrow_key_sequences(b);
}

/// Ctrl with a letter sends the letter's control code, its place in the
/// alphabet (1 for `a` or `A`, up to 26 for `z` or `Z`); with Alt as well,
/// ESC comes first.
pub proof fn lemma_ctrl_letter_bytes(key: KeyEvent, c: char)
    requires
        key.code == KeyCode::Char(c),
        key.modifiers.control,
        ('a' <= c && c <= 'z') || ('A' <= c && c <= 'Z'),
    ensures
        ({
            let place: int = if 'a' <= c { c as int - 'a' as int + 1 } else { c as int - 'A' as int + 1 };
            &&& 1 <= place <= 26
            &&& !key.modifiers.alt ==> key_sequence(key) == seq![place as u8]
            &&& key.modifiers.alt ==> key_sequence(key) == seq![0x1bu8, place as u8]
        }),
{
    let lc = crate::text::ascii_lower(c);
    assert('a' <= lc && lc <= 'z');
    assert(lc as int == (if 'a' <= c { c as int } else { c as int + 32 }));
    let b: u8 = ((lc as u32) % 256) as u8;
    assert(b as int == lc as int);
}

} // verus!
