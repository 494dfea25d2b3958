//! Decoding of legacy filenames stored in IBM code page 437.

use vstd::prelude::*;

verus! {

/// The character that code page 437 assigns to one byte; bytes under 0x80
/// keep their ASCII meaning.
pub open spec fn cp437_char(b: u8) -> char {
    if b < 0x80 {
        b as char
    } else {
        cp437_high_char(b)
    }
}

/// The character that code page 437 assigns to a byte of the high half.
pub open spec fn cp437_high_char(b: u8) -> char {
    if b == 0x80 {
        '\u{c7}'
    } else if b == 0x81 {
        '\u{fc}'
    } else if b == 0x82 {
        '\u{e9}'
    } else if b == 0x83 {
        '\u{e2}'
    } else if b == 0x84 {
        '\u{e4}'
    } else if b == 0x85 {
        '\u{e0}'
    } else if b == 0x86 {
        '\u{e5}'
    } else if b == 0x87 {
        '\u{e7}'
    } else if b == 0x88 {
        '\u{ea}'
    } else if b == 0x89 {
        '\u{eb}'
    } else if b == 0x8a {
        '\u{e8}'
    } else if b == 0x8b {
        '\u{ef}'
    } else if b == 0x8c {
        '\u{ee}'
    } else if b == 0x8d {
        '\u{ec}'
    } else if b == 0x8e {
        '\u{c4}'
    } else if b == 0x8f {
        '\u{c5}'
    } else if b == 0x90 {
        '\u{c9}'
    } else if b == 0x91 {
        '\u{e6}'
    } else if b == 0x92 {
        '\u{c6}'
    } else if b == 0x93 {
        '\u{f4}'
    } else if b == 0x94 {
        '\u{f6}'
    } else if b == 0x95 {
        '\u{f2}'
    } else if b == 0x96 {
        '\u{fb}'
    } else if b == 0x97 {
        '\u{f9}'
    } else if b == 0x98 {
        '\u{ff}'
    } else if b == 0x99 {
        '\u{d6}'
    } else if b == 0x9a {
        '\u{dc}'
    } else if b == 0x9b {
        '\u{a2}'
    } else if b == 0x9c {
        '\u{a3}'
    } else if b == 0x9d {
        '\u{a5}'
    } else if b == 0x9e {
        '\u{20a7}'
    } else if b == 0x9f {
        '\u{192}'
    } else if b == 0xa0 {
        '\u{e1}'
    } else if b == 0xa1 {
        '\u{ed}'
    } else if b == 0xa2 {
        '\u{f3}'
    } else if b == 0xa3 {
        '\u{fa}'
    } else if b == 0xa4 {
        '\u{f1}'
    } else if b == 0xa5 {
        '\u{d1}'
    } else if b == 0xa6 {
        '\u{aa}'
    } else if b == 0xa7 {
        '\u{ba}'
    } else if b == 0xa8 {
        '\u{bf}'
    } else if b == 0xa9 {
        '\u{2310}'
    } else if b == 0xaa {
        '\u{ac}'
    } else if b == 0xab {
        '\u{bd}'
    } else if b == 0xac {
        '\u{bc}'
    } else if b == 0xad {
        '\u{a1}'
    } else if b == 0xae {
        '\u{ab}'
    } else if b == 0xaf {
        '\u{bb}'
    } else if b == 0xb0 {
        '\u{2591}'
    } else if b == 0xb1 {
        '\u{2592}'
    } else if b == 0xb2 {
        '\u{2593}'
    } else if b == 0xb3 {
        '\u{2502}'
    } else if b == 0xb4 {
        '\u{2524}'
    } else if b == 0xb5 {
        '\u{2561}'
    } else if b == 0xb6 {
        '\u{2562}'
    } else if b == 0xb7 {
        '\u{2556}'
    } else if b == 0xb8 {
        '\u{2555}'
    } else if b == 0xb9 {
        '\u{2563}'
    } else if b == 0xba {
        '\u{2551}'
    } else if b == 0xbb {
        '\u{2557}'
    } else if b == 0xbc {
        '\u{255d}'
    } else if b == 0xbd {
        '\u{255c}'
    } else if b == 0xbe {
        '\u{255b}'
    } else if b == 0xbf {
        '\u{2510}'
    } else if b == 0xc0 {
        '\u{2514}'
    } else if b == 0xc1 {
        '\u{2534}'
    } else if b == 0xc2 {
        '\u{252c}'
    } else if b == 0xc3 {
        '\u{251c}'
    } else if b == 0xc4 {
        '\u{2500}'
    } else if b == 0xc5 {
        '\u{253c}'
    } else if b == 0xc6 {
        '\u{255e}'
    } else if b == 0xc7 {
        '\u{255f}'
    } else if b == 0xc8 {
        '\u{255a}'
    } else if b == 0xc9 {
        '\u{2554}'
    } else if b == 0xca {
        '\u{2569}'
    } else if b == 0xcb {
        '\u{2566}'
    } else if b == 0xcc {
        '\u{2560}'
    } else if b == 0xcd {
        '\u{2550}'
    } else if b == 0xce {
        '\u{256c}'
    } else if b == 0xcf {
        '\u{2567}'
    } else if b == 0xd0 {
        '\u{2568}'
    } else if b == 0xd1 {
        '\u{2564}'
    } else if b == 0xd2 {
        '\u{2565}'
    } else if b == 0xd3 {
        '\u{2559}'
    } else if b == 0xd4 {
        '\u{2558}'
    } else if b == 0xd5 {
        '\u{2552}'
    } else if b == 0xd6 {
        '\u{2553}'
    } else if b == 0xd7 {
        '\u{256b}'
    } else if b == 0xd8 {
        '\u{256a}'
    } else if b == 0xd9 {
        '\u{2518}'
    } else if b == 0xda {
        '\u{250c}'
    } else if b == 0xdb {
        '\u{2588}'
    } else if b == 0xdc {
        '\u{2584}'
    } else if b == 0xdd {
        '\u{258c}'
    } else if b == 0xde {
        '\u{2590}'
    } else if b == 0xdf {
        '\u{2580}'
    } else if b == 0xe0 {
        '\u{3b1}'
    } else if b == 0xe1 {
        '\u{df}'
    } else if b == 0xe2 {
        '\u{393}'
    } else if b == 0xe3 {
        '\u{3c0}'
    } else if b == 0xe4 {
        '\u{3a3}'
    } else if b == 0xe5 {
        '\u{3c3}'
    } else if b == 0xe6 {
        '\u{b5}'
    } else if b == 0xe7 {
        '\u{3c4}'
    } else if b == 0xe8 {
        '\u{3a6}'
    } else if b == 0xe9 {
        '\u{398}'
    } else if b == 0xea {
        '\u{3a9}'
    } else if b == 0xeb {
        '\u{3b4}'
    } else if b == 0xec {
        '\u{221e}'
    } else if b == 0xed {
        '\u{3c6}'
    } else if b == 0xee {
        '\u{3b5}'
    } else if b == 0xef {
        '\u{2229}'
    } else if b == 0xf0 {
        '\u{2261}'
    } else if b == 0xf1 {
        '\u{b1}'
    } else if b == 0xf2 {
        '\u{2265}'
    } else if b == 0xf3 {
        '\u{2264}'
    } else if b == 0xf4 {
        '\u{2320}'
    } else if b == 0xf5 {
        '\u{2321}'
    } else if b == 0xf6 {
        '\u{f7}'
    } else if b == 0xf7 {
        '\u{2248}'
    } else if b == 0xf8 {
        '\u{b0}'
    } else if b == 0xf9 {
        '\u{2219}'
    } else if b == 0xfa {
        '\u{b7}'
    } else if b == 0xfb {
        '\u{221a}'
    } else if b == 0xfc {
        '\u{207f}'
    } else if b == 0xfd {
        '\u{b2}'
    } else if b == 0xfe {
        '\u{25a0}'
    } else {
        '\u{a0}'
    }
}

/// The decoded text of a whole byte buffer under code page 437.
pub open spec fn cp437_decode(s: Seq<u8>) -> Seq<char> {
    s.map_values(|b: u8| cp437_char(b))
}

/// Decodes one byte.
pub fn decode_byte(b: u8) -> (c: char)
    ensures
        c == cp437_char(b),
{
    if b < 0x80 {
        b as char
    } else {
        if b == 0x80 {
            '\u{c7}'
        } else if b == 0x81 {
            '\u{fc}'
        } else if b == 0x82 {
            '\u{e9}'
        } else if b == 0x83 {
            '\u{e2}'
        } else if b == 0x84 {
            '\u{e4}'
        } else if b == 0x85 {
            '\u{e0}'
        } else if b == 0x86 {
            '\u{e5}'
        } else if b == 0x87 {
            '\u{e7}'
        } else if b == 0x88 {
            '\u{ea}'
        } else if b == 0x89 {
            '\u{eb}'
        } else if b == 0x8a {
            '\u{e8}'
        } else if b == 0x8b {
            '\u{ef}'
        } else if b == 0x8c {
            '\u{ee}'
        } else if b == 0x8d {
            '\u{ec}'
        } else if b == 0x8e {
            '\u{c4}'
        } else if b == 0x8f {
            '\u{c5}'
        } else if b == 0x90 {
            '\u{c9}'
        } else if b == 0x91 {
            '\u{e6}'
        } else if b == 0x92 {
            '\u{c6}'
        } else if b == 0x93 {
            '\u{f4}'
        } else if b == 0x94 {
            '\u{f6}'
        } else if b == 0x95 {
            '\u{f2}'
        } else if b == 0x96 {
            '\u{fb}'
        } else if b == 0x97 {
            '\u{f9}'
        } else if b == 0x98 {
            '\u{ff}'
        } else if b == 0x99 {
            '\u{d6}'
        } else if b == 0x9a {
            '\u{dc}'
        } else if b == 0x9b {
            '\u{a2}'
        } else if b == 0x9c {
            '\u{a3}'
        } else if b == 0x9d {
            '\u{a5}'
        } else if b == 0x9e {
            '\u{20a7}'
        } else if b == 0x9f {
            '\u{192}'
        } else if b == 0xa0 {
            '\u{e1}'
        } else if b == 0xa1 {
            '\u{ed}'
        } else if b == 0xa2 {
            '\u{f3}'
        } else if b == 0xa3 {
            '\u{fa}'
        } else if b == 0xa4 {
            '\u{f1}'
        } else if b == 0xa5 {
            '\u{d1}'
        } else if b == 0xa6 {
            '\u{aa}'
        } else if b == 0xa7 {
            '\u{ba}'
        } else if b == 0xa8 {
            '\u{bf}'
        } else if b == 0xa9 {
            '\u{2310}'
        } else if b == 0xaa {
            '\u{ac}'
        } else if b == 0xab {
            '\u{bd}'
        } else if b == 0xac {
            '\u{bc}'
        } else if b == 0xad {
            '\u{a1}'
        } else if b == 0xae {
            '\u{ab}'
        } else if b == 0xaf {
            '\u{bb}'
        } else if b == 0xb0 {
            '\u{2591}'
        } else if b == 0xb1 {
            '\u{2592}'
        } else if b == 0xb2 {
            '\u{2593}'
        } else if b == 0xb3 {
            '\u{2502}'
        } else if b == 0xb4 {
            '\u{2524}'
        } else if b == 0xb5 {
            '\u{2561}'
        } else if b == 0xb6 {
            '\u{2562}'
        } else if b == 0xb7 {
            '\u{2556}'
        } else if b == 0xb8 {
            '\u{2555}'
        } else if b == 0xb9 {
            '\u{2563}'
        } else if b == 0xba {
            '\u{2551}'
        } else if b == 0xbb {
            '\u{2557}'
        } else if b == 0xbc {
            '\u{255d}'
        } else if b == 0xbd {
            '\u{255c}'
        } else if b == 0xbe {
            '\u{255b}'
        } else if b == 0xbf {
            '\u{2510}'
        } else if b == 0xc0 {
            '\u{2514}'
        } else if b == 0xc1 {
            '\u{2534}'
        } else if b == 0xc2 {
            '\u{252c}'
        } else if b == 0xc3 {
            '\u{251c}'
        } else if b == 0xc4 {
            '\u{2500}'
        } else if b == 0xc5 {
            '\u{253c}'
        } else if b == 0xc6 {
            '\u{255e}'
        } else if b == 0xc7 {
            '\u{255f}'
        } else if b == 0xc8 {
            '\u{255a}'
        } else if b == 0xc9 {
            '\u{2554}'
        } else if b == 0xca {
            '\u{2569}'
        } else if b == 0xcb {
            '\u{2566}'
        } else if b == 0xcc {
            '\u{2560}'
        } else if b == 0xcd {
            '\u{2550}'
        } else if b == 0xce {
            '\u{256c}'
        } else if b == 0xcf {
            '\u{2567}'
        } else if b == 0xd0 {
            '\u{2568}'
        } else if b == 0xd1 {
            '\u{2564}'
        } else if b == 0xd2 {
            '\u{2565}'
        } else if b == 0xd3 {
            '\u{2559}'
        } else if b == 0xd4 {
            '\u{2558}'
        } else if b == 0xd5 {
            '\u{2552}'
        } else if b == 0xd6 {
            '\u{2553}'
        } else if b == 0xd7 {
            '\u{256b}'
        } else if b == 0xd8 {
            '\u{256a}'
        } else if b == 0xd9 {
            '\u{2518}'
        } else if b == 0xda {
            '\u{250c}'
        } else if b == 0xdb {
            '\u{2588}'
        } else if b == 0xdc {
            '\u{2584}'
        } else if b == 0xdd {
            '\u{258c}'
        } else if b == 0xde {
            '\u{2590}'
        } else if b == 0xdf {
            '\u{2580}'
        } else if b == 0xe0 {
            '\u{3b1}'
        } else if b == 0xe1 {
            '\u{df}'
        } else if b == 0xe2 {
            '\u{393}'
        } else if b == 0xe3 {
            '\u{3c0}'
        } else if b == 0xe4 {
            '\u{3a3}'
        } else if b == 0xe5 {
            '\u{3c3}'
        } else if b == 0xe6 {
            '\u{b5}'
        } else if b == 0xe7 {
            '\u{3c4}'
        } else if b == 0xe8 {
            '\u{3a6}'
        } else if b == 0xe9 {
            '\u{398}'
        } else if b == 0xea {
            '\u{3a9}'
        } else if b == 0xeb {
            '\u{3b4}'
        } else if b == 0xec {
            '\u{221e}'
        } else if b == 0xed {
            '\u{3c6}'
        } else if b == 0xee {
            '\u{3b5}'
        } else if b == 0xef {
            '\u{2229}'
        } else if b == 0xf0 {
            '\u{2261}'
        } else if b == 0xf1 {
            '\u{b1}'
        } else if b == 0xf2 {
            '\u{2265}'
        } else if b == 0xf3 {
            '\u{2264}'
        } else if b == 0xf4 {
            '\u{2320}'
        } else if b == 0xf5 {
            '\u{2321}'
        } else if b == 0xf6 {
            '\u{f7}'
        } else if b == 0xf7 {
            '\u{2248}'
        } else if b == 0xf8 {
            '\u{b0}'
        } else if b == 0xf9 {
            '\u{2219}'
        } else if b == 0xfa {
            '\u{b7}'
        } else if b == 0xfb {
            '\u{221a}'
        } else if b == 0xfc {
            '\u{207f}'
        } else if b == 0xfd {
            '\u{b2}'
        } else if b == 0xfe {
            '\u{25a0}'
        } else {
            '\u{a0}'
        }
    }
}

/// Decodes a whole byte buffer; code page 437 gives every byte a character,
/// so decoding cannot fail.
pub fn from_cp437(bytes: &Vec<u8>) -> (r: Vec<char>)
    ensures
        r@ == cp437_decode(bytes@),
{
    let mut out: Vec<char> = Vec::new();
    let mut i: usize = 0;
    while i < bytes.len()
        invariant
            0 <= i <= bytes@.len(),
            out@ == cp437_decode(bytes@.subrange(0, i as int)),
        decreases bytes@.len() - i,
    {
        out.push(decode_byte(bytes[i]));
        i = i + 1;
        assert(out@ =~= cp437_decode(bytes@.subrange(0, i as int)));
    }
    assert(bytes@.subrange(0, bytes@.len() as int) =~= bytes@);
    out
}

} // verus!
