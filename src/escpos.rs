//! ESC/POS command encoding: pure, total maps from printer intents to bytes.
use vstd::prelude::*;

verus! {

/// The ESC control byte.
pub const ESC: u8 = 0x1B;

/// The GS control byte.
pub const GS: u8 = 0x1D;

/// Horizontal justification of the following lines.
#[derive(Clone, Copy, Debug, PartialEq, Eq, Structural)]
pub enum Alignment {
    Left,
    Center,
    Right,
}

/// Character magnification.
#[derive(Clone, Copy, Debug, PartialEq, Eq, Structural)]
pub enum TextSize {
    Normal,
    DoubleWidthHeight,
}

/// The bytes of an ASCII text, one per character.
pub open spec fn ascii_bytes(s: Seq<char>) -> Seq<u8> {
    s.map_values(|c: char| c as u8)
}

pub open spec fn initialize_bytes() -> Seq<u8> {
    seq![ESC, 0x40u8]
}

pub open spec fn alignment_code(a: Alignment) -> u8 {
    match a {
        Alignment::Left => 0u8,
        Alignment::Center => 1u8,
        Alignment::Right => 2u8,
    }
}

pub open spec fn alignment_bytes(a: Alignment) -> Seq<u8> {
    seq![ESC, 0x61u8, alignment_code(a)]
}

pub open spec fn bold_bytes(on: bool) -> Seq<u8> {
    seq![ESC, 0x45u8, if on { 1u8 } else { 0u8 }]
}

pub open spec fn text_size_bytes(size: TextSize) -> Seq<u8> {
    seq![
        GS,
        0x21u8,
        match size {
            TextSize::Normal => 0x00u8,
            TextSize::DoubleWidthHeight => 0x11u8,
        },
    ]
}

pub open spec fn cut_bytes(partial: bool) -> Seq<u8> {
    seq![GS, 0x56u8, if partial { 1u8 } else { 0u8 }]
}

/// Pulse pin 0: on for 25 units, off for 250 units.
pub open spec fn drawer_kick_bytes() -> Seq<u8> {
    seq![ESC, 0x70u8, 0x00u8, 0x19u8, 0xFAu8]
}

/// The fixed self-test page: banner in bold double size, identification
/// lines in normal mode, three blank lines, then a partial cut.
pub open spec fn self_test_page_bytes() -> Seq<u8> {
    initialize_bytes() + alignment_bytes(Alignment::Center) + bold_bytes(true) + text_size_bytes(
        TextSize::DoubleWidthHeight,
    ) + ascii_bytes("PRINTER TEST\n"@) + text_size_bytes(TextSize::Normal) + bold_bytes(false)
        + ascii_bytes("\n------------------------\nNew Era Cafeteria POS\nXprinter M804 Connected\n------------------------\n\nIf you can read this,\nyour printer is working!\n\n\n\n"@) + cut_bytes(true)
}

/// Resets the printer to its power-on mode.
pub fn initialize() -> (r: Vec<u8>)
    ensures
        r@ == initialize_bytes(),
{
    vec![ESC, 0x40]
}

pub fn set_alignment(a: Alignment) -> (r: Vec<u8>)
    ensures
        r@ == alignment_bytes(a),
{
    let code: u8 = match a {
        Alignment::Left => 0,
        Alignment::Center => 1,
        Alignment::Right => 2,
    };
    vec![ESC, 0x61, code]
}

pub fn set_bold(on: bool) -> (r: Vec<u8>)
    ensures
        r@ == bold_bytes(on),
{
    vec![ESC, 0x45, if on { 1 } else { 0 }]
}

pub fn set_text_size(size: TextSize) -> (r: Vec<u8>)
    ensures
        r@ == text_size_bytes(size),
{
    let code: u8 = match size {
        TextSize::Normal => 0x00,
        TextSize::DoubleWidthHeight => 0x11,
    };
    vec![GS, 0x21, code]
}

pub fn build_cut(partial: bool) -> (r: Vec<u8>)
    ensures
        r@ == cut_bytes(partial),
{
    vec![GS, 0x56, if partial { 1 } else { 0 }]
}

/// The cash-drawer pulse. Its result is the same fixed five bytes on every call.
pub fn build_drawer_kick() -> (r: Vec<u8>)
    ensures
        r@ == drawer_kick_bytes(),
        r@.len() == 5,
        r@ == seq![0x1Bu8, 0x70u8, 0x00u8, 0x19u8, 0xFAu8],
{
    vec![ESC, 0x70, 0x00, 0x19, 0xFA]
}

/// Appends the bytes of an ASCII text.
pub fn push_text(buf: &mut Vec<u8>, s: &str)
    requires
        s.is_ascii(),
    ensures
        final(buf)@ == old(buf)@ + ascii_bytes(s@),
{
    let n = s.unicode_len();
    let mut i: usize = 0;
    while i < n
        invariant
            n == s@.len(),
            i <= n,
            s.is_ascii(),
            buf@ == old(buf)@ + ascii_bytes(s@.subrange(0, i as int)),
        decreases n - i,
    {
        let b = s.get_ascii(i);
        buf.push(b);
        proof {
            assert(s@.subrange(0, i + 1) == s@.subrange(0, i as int).push(s@[i as int]));
            assert(ascii_bytes(s@.subrange(0, i + 1)) == ascii_bytes(s@.subrange(0, i as int)).push(
                b,
            ));
        }
        i = i + 1;
    }
    assert(s@.subrange(0, n as int) == s@);
}

/// Appends a whole command to a frame.
fn push_all(buf: &mut Vec<u8>, cmd: Vec<u8>)
    ensures
        final(buf)@ == old(buf)@ + cmd@,
{
    let mut cmd = cmd;
    buf.append(&mut cmd);
}

/// The fixed self-test page. Its result is the same on every call.
pub fn build_self_test_page() -> (r: Vec<u8>)
    ensures
        r@ == self_test_page_bytes(),
{
    proof {
        reveal_strlit("PRINTER TEST\n");
        reveal_strlit("\n------------------------\nNew Era Cafeteria POS\nXprinter M804 Connected\n------------------------\n\nIf you can read this,\nyour printer is working!\n\n\n\n");
    }
    let mut r: Vec<u8> = Vec::new();
    push_all(&mut r, initialize());
    push_all(&mut r, set_alignment(Alignment::Center));
    push_all(&mut r, set_bold(true));
    push_all(&mut r, set_text_size(TextSize::DoubleWidthHeight));
    push_text(&mut r, "PRINTER TEST\n");
    push_all(&mut r, set_text_size(TextSize::Normal));
    push_all(&mut r, set_bold(false));
    push_text(&mut r, "\n------------------------\nNew Era Cafeteria POS\nXprinter M804 Connected\n------------------------\n\nIf you can read this,\nyour printer is working!\n\n\n\n");
    push_all(&mut r, build_cut(true));
    r
}

} // verus!
