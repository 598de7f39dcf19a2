//! Log-line sanitization for the supervised server's output stream.
//!
//! One raw line of process output is cleaned by dropping terminal control
//! sequences (an escape character followed by `[` and a parameter run ending
//! at the first byte in `@`..=`~`), non-printable control characters other
//! than newline and tab, and the block of braille spinner glyphs.

use vstd::prelude::*;

verus! {

/// The escape character that introduces a terminal control sequence.
pub open spec fn is_escape(c: char) -> bool {
    c == '\u{1b}'
}

/// A byte that terminates a control-sequence parameter run (`@`..=`~`).
pub open spec fn is_csi_final(c: char) -> bool {
    0x40 <= (c as u32) && (c as u32) <= 0x7e
}

/// A control character (the C0 range, delete, and the C1 range).
pub open spec fn is_control_char(c: char) -> bool {
    (c as u32) < 0x20 || (0x7f <= (c as u32) && (c as u32) <= 0x9f)
}

/// A braille spinner glyph.
pub open spec fn is_spinner(c: char) -> bool {
    0x2800 <= (c as u32) && (c as u32) <= 0x28ff
}

/// A character that survives sanitization when it stands outside a control
/// sequence: anything but a control character (newline and tab survive) and
/// the spinner glyphs.
pub open spec fn is_kept(c: char) -> bool {
    &&& !(is_control_char(c) && c != '\n' && c != '\t')
    &&& !is_spinner(c)
}

/// The sanitized text of `s` from position `i` on. `in_csi` says whether
/// position `i` stands inside a control sequence whose terminator has not
/// been seen yet.
pub open spec fn sanitize_from(s: Seq<char>, i: int, in_csi: bool) -> Seq<char>
    decreases s.len() - i,
{
    if i < 0 || i >= s.len() {
        Seq::empty()
    } else if in_csi {
        if is_csi_final(s[i]) {
            sanitize_from(s, i + 1, false)
        } else {
            sanitize_from(s, i + 1, true)
        }
    } else if is_escape(s[i]) {
        if i + 1 < s.len() && s[i + 1] == '[' {
            sanitize_from(s, i + 2, true)
        } else {
            sanitize_from(s, i + 1, false)
        }
    } else if is_kept(s[i]) {
        seq![s[i]] + sanitize_from(s, i + 1, false)
    } else {
        sanitize_from(s, i + 1, false)
    }
}

/// The sanitized form of a whole raw line.
pub open spec fn spec_sanitize(s: Seq<char>) -> Seq<char> {
    sanitize_from(s, 0, false)
}

fn exec_is_kept(c: char) -> (r: bool)
    ensures
        r == is_kept(c),
{
    let u = c as u32;
    let control = u < 0x20 || (0x7f <= u && u <= 0x9f);
    let spinner = 0x2800 <= u && u <= 0x28ff;
    !(control && c != '\n' && c != '\t') && !spinner
}

/// Strips terminal control sequences, non-printable control characters
/// (except newline and tab) and spinner glyphs from one line of raw process
/// output.
pub fn sanitize_line(s: &str) -> (r: String)
    ensures
        r@ == spec_sanitize(s@),
{
    let len = s.unicode_len();
    let mut out = String::new();
    let mut i: usize = 0;
    let mut in_csi = false;
    while i < len
        invariant
            len == s@.len(),
            0 <= i <= len,
            spec_sanitize(s@) == out@ + sanitize_from(s@, i as int, in_csi),
        decreases len - i,
    {
        let c = s.get_char(i);
        if in_csi {
            let u = c as u32;
            if 0x40 <= u && u <= 0x7e {
                in_csi = false;
            }
            i = i + 1;
        } else if c == '\u{1b}' {
            if i + 1 < len && s.get_char(i + 1) == '[' {
                in_csi = true;
                i = i + 2;
            } else {
                i = i + 1;
            }
        } else {
            if exec_is_kept(c) {
                proof {
                    assert(sanitize_from(s@, i as int, false) == seq![s@[i as int]]
                        + sanitize_from(s@, i + 1, false));
                }
                let ghost prev = out@;
                out.push(c);
                proof {
                    assert(out@ + sanitize_from(s@, i + 1, false) =~= prev + sanitize_from(
                        s@,
                        i as int,
                        false,
                    ));
                }
            }
            i = i + 1;
        }
    }
    assert(sanitize_from(s@, i as int, in_csi) =~= Seq::<char>::empty());
    assert(out@ =~= spec_sanitize(s@));
    out
}

} // verus!
