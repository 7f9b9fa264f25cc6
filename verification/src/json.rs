//! The wire grammar of the pipeline: every frame, and every doubly
//! encoded `content` field, is one JSON text. The grammar is stated as
//! spec functions over byte sequences (index in, end index out), and
//! the executable parser is proved to return exactly what the grammar
//! says. Strings are unescaped to their UTF-8 bytes; numbers keep their
//! raw lexeme; nested arrays and objects below the top level are kept
//! as raw, validated byte ranges.

use vstd::prelude::*;
use vstd::slice::{slice_subrange, slice_to_vec};

verus! {

/// Nesting levels accepted before a frame is rejected as too deep.
pub const DEPTH_LIMIT: u32 = 128;

// Byte values the grammar dispatches on, named for readability.
pub const QUOTE: u8 = 0x22;
pub const BACKSLASH: u8 = 0x5c;
pub const COMMA: u8 = 0x2c;
pub const COLON: u8 = 0x3a;
pub const LBRACKET: u8 = 0x5b;
pub const RBRACKET: u8 = 0x5d;
pub const LBRACE: u8 = 0x7b;
pub const RBRACE: u8 = 0x7d;
pub const MINUS: u8 = 0x2d;

/// JSON insignificant whitespace: space, tab, line feed, carriage return.
pub open spec fn is_ws(b: u8) -> bool {
    b == 0x20 || b == 0x09 || b == 0x0a || b == 0x0d
}

/// Index of the first non-whitespace byte at or after `i`.
pub open spec fn ws_end(s: Seq<u8>, i: int) -> int
    decreases s.len() - i,
{
    if 0 <= i < s.len() && is_ws(s[i]) {
        ws_end(s, i + 1)
    } else {
        i
    }
}

pub open spec fn is_digit(b: u8) -> bool {
    0x30 <= b <= 0x39
}

/// Index of the first non-digit byte at or after `i`.
pub open spec fn digits_end(s: Seq<u8>, i: int) -> int
    decreases s.len() - i,
{
    if 0 <= i < s.len() && is_digit(s[i]) {
        digits_end(s, i + 1)
    } else {
        i
    }
}

pub open spec fn is_hex(b: u8) -> bool {
    is_digit(b) || 0x41 <= b <= 0x46 || 0x61 <= b <= 0x66
}

/// Value of one hexadecimal digit byte (meaningful when `is_hex`).
pub open spec fn hex_val(b: u8) -> int {
    if is_digit(b) {
        b - 0x30
    } else if 0x41 <= b <= 0x46 {
        b - 0x41 + 10
    } else {
        b - 0x61 + 10
    }
}

/// Value of the four hex digits at `i`..`i+4`.
pub open spec fn hex4(s: Seq<u8>, i: int) -> int {
    hex_val(s[i]) * 0x1000 + hex_val(s[i + 1]) * 0x100 + hex_val(s[i + 2]) * 0x10 + hex_val(
        s[i + 3],
    )
}

/// Unescaped byte of a single-character escape, `None` if the escape
/// character is not one of the eight JSON short escapes.
pub open spec fn esc_byte(b: u8) -> Option<u8> {
    if b == QUOTE {
        Some(QUOTE)
    } else if b == BACKSLASH {
        Some(BACKSLASH)
    } else if b == 0x2f {
        Some(0x2fu8)
    } else if b == 0x62 {
        Some(0x08u8)
    } else if b == 0x66 {
        Some(0x0cu8)
    } else if b == 0x6e {
        Some(0x0au8)
    } else if b == 0x72 {
        Some(0x0du8)
    } else if b == 0x74 {
        Some(0x09u8)
    } else {
        None
    }
}

/// UTF-8 encoding of a Unicode scalar value.
pub open spec fn utf8_enc(c: int) -> Seq<u8> {
    if c < 0x80 {
        seq![c as u8]
    } else if c < 0x800 {
        seq![(0xc0 + c / 0x40) as u8, (0x80 + c % 0x40) as u8]
    } else if c < 0x10000 {
        seq![
            (0xe0 + c / 0x1000) as u8,
            (0x80 + (c / 0x40) % 0x40) as u8,
            (0x80 + c % 0x40) as u8,
        ]
    } else {
        seq![
            (0xf0 + c / 0x40000) as u8,
            (0x80 + (c / 0x1000) % 0x40) as u8,
            (0x80 + (c / 0x40) % 0x40) as u8,
            (0x80 + c % 0x40) as u8,
        ]
    }
}

/// Scan a string body beginning at `i`, the index right after the
/// opening quote. Returns the unescaped bytes and the index right
/// after the closing quote; `None` on an unterminated string, a raw
/// control byte, a malformed escape, or a lone surrogate.
pub open spec fn str_scan(s: Seq<u8>, i: int) -> Option<(Seq<u8>, int)>
    decreases s.len() - i,
{
    if i < 0 || i >= s.len() {
        None
    } else {
        let b = s[i];
        if b == QUOTE {
            Some((Seq::empty(), i + 1))
        } else if b == BACKSLASH {
            if i + 2 > s.len() {
                None
            } else {
                let e = s[i + 1];
                if e == 0x75 {
                    if i + 6 > s.len() {
                        None
                    } else if !(is_hex(s[i + 2]) && is_hex(s[i + 3]) && is_hex(s[i + 4]) && is_hex(
                        s[i + 5],
                    )) {
                        None
                    } else {
                        let c = hex4(s, i + 2);
                        if 0xd800 <= c <= 0xdbff {
                            if i + 12 > s.len() {
                                None
                            } else if !(s[i + 6] == BACKSLASH && s[i + 7] == 0x75 && is_hex(
                                s[i + 8],
                            ) && is_hex(s[i + 9]) && is_hex(s[i + 10]) && is_hex(s[i + 11])) {
                                None
                            } else {
                                let c2 = hex4(s, i + 8);
                                if 0xdc00 <= c2 <= 0xdfff {
                                    match str_scan(s, i + 12) {
                                        Some((t, e2)) => Some(
                                            (
                                                utf8_enc(
                                                    0x10000 + (c - 0xd800) * 0x400 + (c2 - 0xdc00),
                                                ) + t,
                                                e2,
                                            ),
                                        ),
                                        None => None,
                                    }
                                } else {
                                    None
                                }
                            }
                        } else if 0xdc00 <= c <= 0xdfff {
                            None
                        } else {
                            match str_scan(s, i + 6) {
                                Some((t, e2)) => Some((utf8_enc(c) + t, e2)),
                                None => None,
                            }
                        }
                    }
                } else {
                    match esc_byte(e) {
                        Some(u) => match str_scan(s, i + 2) {
                            Some((t, e2)) => Some((seq![u] + t, e2)),
                            None => None,
                        },
                        None => None,
                    }
                }
            }
        } else if b < 0x20 {
            None
        } else {
            match str_scan(s, i + 1) {
                Some((t, e)) => Some((seq![b] + t, e)),
                None => None,
            }
        }
    }
}

/// End of the integer part at `i`: one `0`, or a nonzero digit run.
pub open spec fn int_part_end(s: Seq<u8>, i: int) -> Option<int> {
    if !(0 <= i < s.len() && is_digit(s[i])) {
        None
    } else if s[i] == 0x30 {
        Some(i + 1)
    } else {
        Some(digits_end(s, i))
    }
}

/// End of the optional fraction part at `i`.
pub open spec fn frac_part_end(s: Seq<u8>, i: int) -> Option<int> {
    if 0 <= i < s.len() && s[i] == 0x2e {
        if i + 1 < s.len() && is_digit(s[i + 1]) {
            Some(digits_end(s, i + 1))
        } else {
            None
        }
    } else {
        Some(i)
    }
}

/// End of the optional exponent part at `i`.
pub open spec fn exp_part_end(s: Seq<u8>, i: int) -> Option<int> {
    if 0 <= i < s.len() && (s[i] == 0x65 || s[i] == 0x45) {
        let j = if i + 1 < s.len() && (s[i + 1] == 0x2b || s[i + 1] == MINUS) {
            i + 2
        } else {
            i + 1
        };
        if 0 <= j < s.len() && is_digit(s[j]) {
            Some(digits_end(s, j))
        } else {
            None
        }
    } else {
        Some(i)
    }
}

/// End of a number lexeme beginning at `i`.
pub open spec fn num_end(s: Seq<u8>, i: int) -> Option<int> {
    let j = if 0 <= i < s.len() && s[i] == MINUS {
        i + 1
    } else {
        i
    };
    match int_part_end(s, j) {
        None => None,
        Some(k) => match frac_part_end(s, k) {
            None => None,
            Some(m) => exp_part_end(s, m),
        },
    }
}

/// First non-whitespace index at or after `i`.
pub fn ws_end_x(s: &[u8], i: usize) -> (r: usize)
    requires
        i <= s.len(),
    ensures
        r == ws_end(s@, i as int),
        i <= r <= s.len(),
{
    let mut cur: usize = i;
    loop
        invariant
            i <= cur <= s.len(),
            ws_end(s@, i as int) == ws_end(s@, cur as int),
        decreases s.len() - cur,
    {
        if cur < s.len() && (s[cur] == 0x20 || s[cur] == 0x09 || s[cur] == 0x0a || s[cur] == 0x0d) {
            cur = cur + 1;
        } else {
            return cur;
        }
    }
}

/// First non-digit index at or after `i`.
pub fn digits_end_x(s: &[u8], i: usize) -> (r: usize)
    requires
        i <= s.len(),
    ensures
        r == digits_end(s@, i as int),
        i <= r <= s.len(),
{
    let mut cur: usize = i;
    loop
        invariant
            i <= cur <= s.len(),
            digits_end(s@, i as int) == digits_end(s@, cur as int),
        decreases s.len() - cur,
    {
        if cur < s.len() && 0x30 <= s[cur] && s[cur] <= 0x39 {
            cur = cur + 1;
        } else {
            return cur;
        }
    }
}

/// Value of one hex digit byte, `None` when it is not a hex digit.
fn hex_nibble(b: u8) -> (r: Option<u8>)
    ensures
        match r {
            Some(v) => is_hex(b) && v == hex_val(b),
            None => !is_hex(b),
        },
{
    if 0x30 <= b && b <= 0x39 {
        Some(b - 0x30)
    } else if 0x41 <= b && b <= 0x46 {
        Some(b - 0x41 + 10)
    } else if 0x61 <= b && b <= 0x66 {
        Some(b - 0x61 + 10)
    } else {
        None
    }
}

/// Append the UTF-8 encoding of the scalar value `c` to `out`.
fn push_utf8(out: &mut Vec<u8>, c: u32)
    requires
        c < 0x110000,
    ensures
        final(out)@ == old(out)@ + utf8_enc(c as int),
{
    if c < 0x80 {
        out.push(c as u8);
    } else if c < 0x800 {
        out.push((0xc0 + c / 0x40) as u8);
        out.push((0x80 + c % 0x40) as u8);
    } else if c < 0x10000 {
        out.push((0xe0 + c / 0x1000) as u8);
        out.push((0x80 + (c / 0x40) % 0x40) as u8);
        out.push((0x80 + c % 0x40) as u8);
    } else {
        out.push((0xf0 + c / 0x40000) as u8);
        out.push((0x80 + (c / 0x1000) % 0x40) as u8);
        out.push((0x80 + (c / 0x40) % 0x40) as u8);
        out.push((0x80 + c % 0x40) as u8);
    }
    proof {
        assert(final(out)@ =~= old(out)@ + utf8_enc(c as int));
    }
}

/// How an executable scan result relates to the grammar's answer.
pub open spec fn scan_matches(g: Option<(Seq<u8>, int)>, r: Option<(Vec<u8>, usize)>) -> bool {
    match (g, r) {
        (Some((u, e)), Some((v, e2))) => u == v@ && e == e2 as int,
        (None, None) => true,
        _ => false,
    }
}

/// Relation carried through the scanning loop: the full answer equals
/// the bytes already accumulated plus whatever the rest still yields.
pub open spec fn scan_rel(g: Option<(Seq<u8>, int)>, acc: Seq<u8>, c: Option<(Seq<u8>, int)>) -> bool {
    match (g, c) {
        (Some((u, e)), Some((t, e2))) => u == acc + t && e == e2,
        (None, None) => true,
        _ => false,
    }
}

/// Scan a string body whose opening quote stands right before `i`.
#[verifier::rlimit(60)]
pub fn str_scan_x(s: &[u8], i: usize) -> (r: Option<(Vec<u8>, usize)>)
    requires
        i <= s.len(),
    ensures
        scan_matches(str_scan(s@, i as int), r),
        match r {
            Some((v, e)) => i < e <= s.len(),
            None => true,
        },
{
    let ghost g = str_scan(s@, i as int);
    let mut acc: Vec<u8> = Vec::new();
    let mut cur: usize = i;
    loop
        invariant
            i <= cur <= s.len(),
            g == str_scan(s@, i as int),
            scan_rel(g, acc@, str_scan(s@, cur as int)),
        decreases s.len() - cur,
    {
        if cur >= s.len() {
            return None;
        }
        let b = s[cur];
        if b == QUOTE {
            proof {
                assert(acc@ + Seq::<u8>::empty() =~= acc@);
            }
            return Some((acc, cur + 1));
        } else if b == BACKSLASH {
            if s.len() - cur < 2 {
                return None;
            }
            let e = s[cur + 1];
            if e == 0x75 {
                if s.len() - cur < 6 {
                    return None;
                }
                let h0 = hex_nibble(s[cur + 2]);
                let h1 = hex_nibble(s[cur + 3]);
                let h2 = hex_nibble(s[cur + 4]);
                let h3 = hex_nibble(s[cur + 5]);
                match (h0, h1, h2, h3) {
                    (Some(v0), Some(v1), Some(v2), Some(v3)) => {
                        let c: u32 = (v0 as u32) * 0x1000 + (v1 as u32) * 0x100 + (v2 as u32)
                            * 0x10 + (v3 as u32);
                        assert(c == hex4(s@, cur + 2));
                        if 0xd800 <= c && c <= 0xdbff {
                            if s.len() - cur < 12 {
                                return None;
                            }
                            if !(s[cur + 6] == BACKSLASH && s[cur + 7] == 0x75) {
                                return None;
                            }
                            let k0 = hex_nibble(s[cur + 8]);
                            let k1 = hex_nibble(s[cur + 9]);
                            let k2 = hex_nibble(s[cur + 10]);
                            let k3 = hex_nibble(s[cur + 11]);
                            match (k0, k1, k2, k3) {
                                (Some(w0), Some(w1), Some(w2), Some(w3)) => {
                                    let c2: u32 = (w0 as u32) * 0x1000 + (w1 as u32) * 0x100 + (
                                    w2 as u32) * 0x10 + (w3 as u32);
                                    assert(c2 == hex4(s@, cur + 8));
                                    if 0xdc00 <= c2 && c2 <= 0xdfff {
                                        let cp: u32 = 0x10000 + (c - 0xd800) * 0x400 + (c2
                                            - 0xdc00);
                                        let ghost acc0 = acc@;
                                        push_utf8(&mut acc, cp);
                                        proof {
                                            match str_scan(s@, cur + 12) {
                                                Some((tt, te)) => {
                                                    assert(acc0 + (utf8_enc(cp as int) + tt)
                                                        =~= acc@ + tt);
                                                },
                                                None => {},
                                            }
                                        }
                                        cur = cur + 12;
                                    } else {
                                        return None;
                                    }
                                },
                                _ => {
                                    return None;
                                },
                            }
                        } else if 0xdc00 <= c && c <= 0xdfff {
                            return None;
                        } else {
                            let ghost acc0 = acc@;
                            push_utf8(&mut acc, c);
                            proof {
                                match str_scan(s@, cur + 6) {
                                    Some((tt, te)) => {
                                        assert(acc0 + (utf8_enc(c as int) + tt) =~= acc@ + tt);
                                    },
                                    None => {},
                                }
                            }
                            cur = cur + 6;
                        }
                    },
                    _ => {
                        return None;
                    },
                }
            } else {
                let u: u8 = if e == QUOTE {
                    QUOTE
                } else if e == BACKSLASH {
                    BACKSLASH
                } else if e == 0x2f {
                    0x2f
                } else if e == 0x62 {
                    0x08
                } else if e == 0x66 {
                    0x0c
                } else if e == 0x6e {
                    0x0a
                } else if e == 0x72 {
                    0x0d
                } else if e == 0x74 {
                    0x09
                } else {
                    return None;
                };
                assert(esc_byte(e) == Some(u));
                let ghost acc0 = acc@;
                acc.push(u);
                proof {
                    match str_scan(s@, cur + 2) {
                        Some((tt, te)) => {
                            assert(acc0 + (seq![u] + tt) =~= acc@ + tt);
                        },
                        None => {},
                    }
                }
                cur = cur + 2;
            }
        } else if b < 0x20 {
            return None;
        } else {
            let ghost acc0 = acc@;
            acc.push(b);
            proof {
                match str_scan(s@, cur + 1) {
                    Some((tt, te)) => {
                        assert(acc0 + (seq![b] + tt) =~= acc@ + tt);
                    },
                    None => {},
                }
            }
            cur = cur + 1;
        }
    }
}

/// End of the number lexeme beginning at `i`.
pub fn num_end_x(s: &[u8], i: usize) -> (r: Option<usize>)
    requires
        i <= s.len(),
    ensures
        match r {
            Some(e) => num_end(s@, i as int) == Some(e as int) && i < e <= s.len(),
            None => num_end(s@, i as int) is None,
        },
{
    let j: usize = if i < s.len() && s[i] == MINUS {
        i + 1
    } else {
        i
    };
    if !(j < s.len() && 0x30 <= s[j] && s[j] <= 0x39) {
        return None;
    }
    let k: usize = if s[j] == 0x30 {
        j + 1
    } else {
        let k0 = digits_end_x(s, j + 1);
        assert(k0 == digits_end(s@, j as int));
        k0
    };
    let m: usize = if k < s.len() && s[k] == 0x2e {
        if k + 1 < s.len() && 0x30 <= s[k + 1] && s[k + 1] <= 0x39 {
            digits_end_x(s, k + 1)
        } else {
            return None;
        }
    } else {
        k
    };
    if m < s.len() && (s[m] == 0x65 || s[m] == 0x45) {
        let p: usize = if m + 1 < s.len() && (s[m + 1] == 0x2b || s[m + 1] == MINUS) {
            m + 2
        } else {
            m + 1
        };
        if p < s.len() && 0x30 <= s[p] && s[p] <= 0x39 {
            Some(digits_end_x(s, p))
        } else {
            None
        }
    } else {
        Some(m)
    }
}

/// The literal `true` starts at `i`.
pub open spec fn lit_true_at(s: Seq<u8>, i: int) -> bool {
    i + 4 <= s.len() && s[i] == 0x74 && s[i + 1] == 0x72 && s[i + 2] == 0x75 && s[i + 3] == 0x65
}

/// The literal `false` starts at `i`.
pub open spec fn lit_false_at(s: Seq<u8>, i: int) -> bool {
    i + 5 <= s.len() && s[i] == 0x66 && s[i + 1] == 0x61 && s[i + 2] == 0x6c && s[i + 3] == 0x73
        && s[i + 4] == 0x65
}

/// The literal `null` starts at `i`.
pub open spec fn lit_null_at(s: Seq<u8>, i: int) -> bool {
    i + 4 <= s.len() && s[i] == 0x6e && s[i + 1] == 0x75 && s[i + 2] == 0x6c && s[i + 3] == 0x6c
}

/// End of one JSON value beginning exactly at `i` (no leading
/// whitespace), with at most `depth` levels of nesting below it.
/// The `if x <= y { None }` guards only discharge termination; the
/// indices they test always move forward.
pub open spec fn val_end(s: Seq<u8>, i: int, depth: int) -> Option<int>
    decreases depth, s.len() - i, 0int,
{
    if i < 0 || i >= s.len() {
        None
    } else {
        let b = s[i];
        if b == QUOTE {
            match str_scan(s, i + 1) {
                Some((u, e)) => Some(e),
                None => None,
            }
        } else if b == MINUS || is_digit(b) {
            num_end(s, i)
        } else if b == 0x74 {
            if lit_true_at(s, i) {
                Some(i + 4)
            } else {
                None
            }
        } else if b == 0x66 {
            if lit_false_at(s, i) {
                Some(i + 5)
            } else {
                None
            }
        } else if b == 0x6e {
            if lit_null_at(s, i) {
                Some(i + 4)
            } else {
                None
            }
        } else if b == LBRACKET {
            if depth <= 0 {
                None
            } else {
                let j = ws_end(s, i + 1);
                if j <= i {
                    None
                } else if j < s.len() && s[j] == RBRACKET {
                    Some(j + 1)
                } else {
                    elems_end(s, j, depth - 1)
                }
            }
        } else if b == LBRACE {
            if depth <= 0 {
                None
            } else {
                let j = ws_end(s, i + 1);
                if j <= i {
                    None
                } else if j < s.len() && s[j] == RBRACE {
                    Some(j + 1)
                } else {
                    members_end(s, j, depth - 1)
                }
            }
        } else {
            None
        }
    }
}

/// End of a non-empty array element list whose first element starts
/// at `i`, up to and including the closing bracket.
pub open spec fn elems_end(s: Seq<u8>, i: int, depth: int) -> Option<int>
    decreases depth, s.len() - i, 1int,
{
    match val_end(s, i, depth) {
        None => None,
        Some(j) => if j <= i {
            None
        } else {
            let k = ws_end(s, j);
            if k < j {
                None
            } else if k < s.len() && s[k] == COMMA {
                let m = ws_end(s, k + 1);
                if m <= i || m > s.len() {
                    None
                } else {
                    elems_end(s, m, depth)
                }
            } else if k < s.len() && s[k] == RBRACKET {
                Some(k + 1)
            } else {
                None
            }
        },
    }
}

/// End of a non-empty object member list whose first key's opening
/// quote stands at `i`, up to and including the closing brace.
pub open spec fn members_end(s: Seq<u8>, i: int, depth: int) -> Option<int>
    decreases depth, s.len() - i, 1int,
{
    if !(0 <= i < s.len() && s[i] == QUOTE) {
        None
    } else {
        match str_scan(s, i + 1) {
            None => None,
            Some((key, j)) => if j <= i {
                None
            } else {
                let k = ws_end(s, j);
                if k < j {
                    None
                } else if !(k < s.len() && s[k] == COLON) {
                    None
                } else {
                    let m = ws_end(s, k + 1);
                    if m <= i || m > s.len() {
                        None
                    } else {
                        match val_end(s, m, depth) {
                            None => None,
                            Some(p) => if p <= m {
                                None
                            } else {
                                let q = ws_end(s, p);
                                if q < p {
                                    None
                                } else if q < s.len() && s[q] == COMMA {
                                    let r2 = ws_end(s, q + 1);
                                    if r2 <= i || r2 > s.len() {
                                        None
                                    } else {
                                        members_end(s, r2, depth)
                                    }
                                } else if q < s.len() && s[q] == RBRACE {
                                    Some(q + 1)
                                } else {
                                    None
                                }
                            },
                        }
                    }
                }
            },
        }
    }
}

/// One decoded field value: scalars are decoded, nested containers
/// are kept as their raw, validated byte range.
pub enum FieldData {
    Null,
    Bool(bool),
    Num(Seq<u8>),
    Str(Seq<u8>),
    Composite(Seq<u8>),
}

/// The decoded form of the value spanning `i..e`.
pub open spec fn field_data_at(s: Seq<u8>, i: int, e: int) -> FieldData {
    let b = s[i];
    if b == QUOTE {
        match str_scan(s, i + 1) {
            Some((u, e2)) => FieldData::Str(u),
            None => FieldData::Null,
        }
    } else if b == 0x74 {
        FieldData::Bool(true)
    } else if b == 0x66 {
        FieldData::Bool(false)
    } else if b == 0x6e {
        FieldData::Null
    } else if b == LBRACKET || b == LBRACE {
        FieldData::Composite(s.subrange(i, e))
    } else {
        FieldData::Num(s.subrange(i, e))
    }
}

/// One value starting at `i`, decoded, together with its end.
pub open spec fn field_scan(s: Seq<u8>, i: int, depth: int) -> Option<(FieldData, int)> {
    match val_end(s, i, depth) {
        None => None,
        Some(e) => Some((field_data_at(s, i, e), e)),
    }
}

/// A non-empty top-level member list starting at the key quote at `i`:
/// the decoded fields in source order, and the end index just past the
/// closing brace.
pub open spec fn obj_scan(s: Seq<u8>, i: int, depth: int) -> Option<
    (Seq<(Seq<u8>, FieldData)>, int),
>
    decreases s.len() - i,
{
    if !(0 <= i < s.len() && s[i] == QUOTE) {
        None
    } else {
        match str_scan(s, i + 1) {
            None => None,
            Some((key, j)) => if j <= i {
                None
            } else {
                let k = ws_end(s, j);
                if k < j {
                    None
                } else if !(k < s.len() && s[k] == COLON) {
                    None
                } else {
                    let m = ws_end(s, k + 1);
                    match field_scan(s, m, depth) {
                        None => None,
                        Some((d, p)) => if p <= i || p <= m {
                            None
                        } else {
                            let q = ws_end(s, p);
                            if q < p {
                                None
                            } else if q < s.len() && s[q] == COMMA {
                                let r2 = ws_end(s, q + 1);
                                if r2 <= i || r2 > s.len() {
                                    None
                                } else {
                                    match obj_scan(s, r2, depth) {
                                        None => None,
                                        Some((rest, e)) => Some((seq![(key, d)] + rest, e)),
                                    }
                                }
                            } else if q < s.len() && s[q] == RBRACE {
                                Some((seq![(key, d)], q + 1))
                            } else {
                                None
                            }
                        },
                    }
                }
            },
        }
    }
}

/// A whole JSON text: an object with its decoded fields, or any other
/// single value. `None` when the text is not one well-formed value
/// with nothing but whitespace around it.
pub enum TopData {
    Obj(Seq<(Seq<u8>, FieldData)>),
    Scalar(FieldData),
}

pub open spec fn json_top(s: Seq<u8>) -> Option<TopData> {
    let i = ws_end(s, 0);
    if !(0 <= i < s.len()) {
        None
    } else if s[i] == LBRACE {
        let j = ws_end(s, i + 1);
        if j <= i {
            None
        } else if j < s.len() && s[j] == RBRACE {
            if ws_end(s, j + 1) == s.len() {
                Some(TopData::Obj(Seq::empty()))
            } else {
                None
            }
        } else {
            match obj_scan(s, j, DEPTH_LIMIT - 1) {
                None => None,
                Some((fields, e)) => if ws_end(s, e) == s.len() {
                    Some(TopData::Obj(fields))
                } else {
                    None
                },
            }
        }
    } else {
        match field_scan(s, i, DEPTH_LIMIT as int) {
            None => None,
            Some((d, e)) => if ws_end(s, e) == s.len() {
                Some(TopData::Scalar(d))
            } else {
                None
            },
        }
    }
}

/// Value of `key` in a decoded member list. A key given twice takes
/// its later occurrence, as the upstream service's decoder does.
pub open spec fn obj_lookup(fields: Seq<(Seq<u8>, FieldData)>, key: Seq<u8>) -> Option<FieldData>
    decreases fields.len(),
{
    if fields.len() == 0 {
        None
    } else if fields.last().0 == key {
        Some(fields.last().1)
    } else {
        obj_lookup(fields.drop_last(), key)
    }
}

/// Executable form of one decoded field value.
#[derive(Debug)]
pub enum JsonField {
    Null,
    Bool(bool),
    Num(Vec<u8>),
    Str(Vec<u8>),
    Composite(Vec<u8>),
}

impl View for JsonField {
    type V = FieldData;

    open spec fn view(&self) -> FieldData {
        match self {
            JsonField::Null => FieldData::Null,
            JsonField::Bool(b) => FieldData::Bool(*b),
            JsonField::Num(v) => FieldData::Num(v@),
            JsonField::Str(v) => FieldData::Str(v@),
            JsonField::Composite(v) => FieldData::Composite(v@),
        }
    }
}

/// Executable decoded object: the members in source order.
#[derive(Debug)]
pub struct JsonObj {
    pub fields: Vec<(Vec<u8>, JsonField)>,
}

pub open spec fn fields_view(v: Seq<(Vec<u8>, JsonField)>) -> Seq<(Seq<u8>, FieldData)> {
    Seq::new(v.len(), |k: int| (v[k].0@, v[k].1@))
}

impl View for JsonObj {
    type V = Seq<(Seq<u8>, FieldData)>;

    open spec fn view(&self) -> Seq<(Seq<u8>, FieldData)> {
        fields_view(self.fields@)
    }
}

/// Executable decoded top-level value.
#[derive(Debug)]
pub enum JsonTop {
    Obj(JsonObj),
    Scalar(JsonField),
}

impl View for JsonTop {
    type V = TopData;

    open spec fn view(&self) -> TopData {
        match self {
            JsonTop::Obj(o) => TopData::Obj(o@),
            JsonTop::Scalar(f) => TopData::Scalar(f@),
        }
    }
}

/// An owned copy of a byte vector.
pub fn copy_bytes(v: &Vec<u8>) -> (r: Vec<u8>)
    ensures
        r@ == v@,
{
    slice_to_vec(v.as_slice())
}

/// Byte-for-byte equality of two slices.
pub fn bytes_eq(a: &[u8], b: &[u8]) -> (r: bool)
    ensures
        r <==> a@ == b@,
{
    if a.len() != b.len() {
        return false;
    }
    let mut idx: usize = 0;
    while idx < a.len()
        invariant
            a@.len() == b@.len(),
            idx <= a.len(),
            forall|t: int| 0 <= t < idx ==> a@[t] == b@[t],
        decreases a.len() - idx,
    {
        if a[idx] != b[idx] {
            return false;
        }
        idx = idx + 1;
    }
    proof {
        assert(a@ =~= b@);
    }
    true
}

/// End of one JSON value beginning exactly at `i`.
pub fn val_end_x(s: &[u8], i: usize, depth: u32) -> (r: Option<usize>)
    requires
        i <= s.len(),
    ensures
        match r {
            Some(e) => val_end(s@, i as int, depth as int) == Some(e as int) && i < e <= s.len(),
            None => val_end(s@, i as int, depth as int) is None,
        },
    decreases depth,
{
    if i >= s.len() {
        return None;
    }
    let b = s[i];
    if b == QUOTE {
        match str_scan_x(s, i + 1) {
            Some((_u, e)) => Some(e),
            None => None,
        }
    } else if b == MINUS || (0x30 <= b && b <= 0x39) {
        num_end_x(s, i)
    } else if b == 0x74 {
        if s.len() - i >= 4 && s[i + 1] == 0x72 && s[i + 2] == 0x75 && s[i + 3] == 0x65 {
            Some(i + 4)
        } else {
            None
        }
    } else if b == 0x66 {
        if s.len() - i >= 5 && s[i + 1] == 0x61 && s[i + 2] == 0x6c && s[i + 3] == 0x73 && s[i + 4]
            == 0x65 {
            Some(i + 5)
        } else {
            None
        }
    } else if b == 0x6e {
        if s.len() - i >= 4 && s[i + 1] == 0x75 && s[i + 2] == 0x6c && s[i + 3] == 0x6c {
            Some(i + 4)
        } else {
            None
        }
    } else if b == LBRACKET {
        if depth == 0 {
            return None;
        }
        let j = ws_end_x(s, i + 1);
        if j < s.len() && s[j] == RBRACKET {
            return Some(j + 1);
        }
        let ghost g = val_end(s@, i as int, depth as int);
        proof {
            assert(g == elems_end(s@, j as int, depth - 1));
        }
        let mut cur: usize = j;
        loop
            invariant
                i < j <= cur <= s.len(),
                depth >= 1,
                i <= s.len(),
                s@.len() == s.len(),
                g == val_end(s@, i as int, depth as int),
                g == elems_end(s@, cur as int, depth - 1),
            decreases s.len() - cur,
        {
            match val_end_x(s, cur, depth - 1) {
                None => {
                    return None;
                },
                Some(jv) => {
                    let k = ws_end_x(s, jv);
                    if k < s.len() && s[k] == COMMA {
                        let m = ws_end_x(s, k + 1);
                        cur = m;
                    } else if k < s.len() && s[k] == RBRACKET {
                        return Some(k + 1);
                    } else {
                        return None;
                    }
                },
            }
        }
    } else if b == LBRACE {
        if depth == 0 {
            return None;
        }
        let j = ws_end_x(s, i + 1);
        if j < s.len() && s[j] == RBRACE {
            return Some(j + 1);
        }
        let ghost g = val_end(s@, i as int, depth as int);
        proof {
            assert(g == members_end(s@, j as int, depth - 1));
        }
        let mut cur: usize = j;
        loop
            invariant
                i < j <= cur <= s.len(),
                depth >= 1,
                i <= s.len(),
                s@.len() == s.len(),
                g == val_end(s@, i as int, depth as int),
                g == members_end(s@, cur as int, depth - 1),
            decreases s.len() - cur,
        {
            if !(cur < s.len() && s[cur] == QUOTE) {
                return None;
            }
            match str_scan_x(s, cur + 1) {
                None => {
                    return None;
                },
                Some((_key, j2)) => {
                    let k = ws_end_x(s, j2);
                    if !(k < s.len() && s[k] == COLON) {
                        return None;
                    }
                    let m = ws_end_x(s, k + 1);
                    match val_end_x(s, m, depth - 1) {
                        None => {
                            return None;
                        },
                        Some(p) => {
                            let q = ws_end_x(s, p);
                            if q < s.len() && s[q] == COMMA {
                                let r2 = ws_end_x(s, q + 1);
                                cur = r2;
                            } else if q < s.len() && s[q] == RBRACE {
                                return Some(q + 1);
                            } else {
                                return None;
                            }
                        },
                    }
                },
            }
        }
    } else {
        None
    }
}

/// One value starting at `i`, decoded into its executable form.
pub fn field_scan_x(s: &[u8], i: usize, depth: u32) -> (r: Option<(JsonField, usize)>)
    requires
        i <= s.len(),
    ensures
        match r {
            Some((f, e)) => field_scan(s@, i as int, depth as int) == Some((f@, e as int)) && i < e
                <= s.len(),
            None => field_scan(s@, i as int, depth as int) is None,
        },
{
    if i >= s.len() {
        return None;
    }
    let b = s[i];
    if b == QUOTE {
        match str_scan_x(s, i + 1) {
            Some((u, e)) => Some((JsonField::Str(u), e)),
            None => None,
        }
    } else if b == LBRACKET || b == LBRACE {
        match val_end_x(s, i, depth) {
            Some(e) => {
                let raw = slice_to_vec(slice_subrange(s, i, e));
                Some((JsonField::Composite(raw), e))
            },
            None => None,
        }
    } else if b == 0x74 {
        match val_end_x(s, i, depth) {
            Some(e) => Some((JsonField::Bool(true), e)),
            None => None,
        }
    } else if b == 0x66 {
        match val_end_x(s, i, depth) {
            Some(e) => Some((JsonField::Bool(false), e)),
            None => None,
        }
    } else if b == 0x6e {
        match val_end_x(s, i, depth) {
            Some(e) => Some((JsonField::Null, e)),
            None => None,
        }
    } else if b == MINUS || (0x30 <= b && b <= 0x39) {
        match num_end_x(s, i) {
            Some(e) => {
                let raw = slice_to_vec(slice_subrange(s, i, e));
                Some((JsonField::Num(raw), e))
            },
            None => None,
        }
    } else {
        None
    }
}

/// A non-empty top-level member list starting at the key quote at `i`.
pub fn obj_scan_x(s: &[u8], i: usize, depth: u32) -> (r: Option<(JsonObj, usize)>)
    requires
        i <= s.len(),
    ensures
        match r {
            Some((o, e)) => obj_scan(s@, i as int, depth as int) == Some((o@, e as int)) && i < e
                <= s.len(),
            None => obj_scan(s@, i as int, depth as int) is None,
        },
{
    let ghost g = obj_scan(s@, i as int, depth as int);
    let mut acc: Vec<(Vec<u8>, JsonField)> = Vec::new();
    let mut cur: usize = i;
    loop
        invariant
            i <= cur <= s.len(),
            g == obj_scan(s@, i as int, depth as int),
            ({
                match (g, obj_scan(s@, cur as int, depth as int)) {
                    (Some((fs, e)), Some((fs2, e2))) => fs == fields_view(acc@) + fs2 && e == e2,
                    (None, None) => true,
                    _ => false,
                }
            }),
        decreases s.len() - cur,
    {
        proof {
            assert(fields_view(acc@) + Seq::<(Seq<u8>, FieldData)>::empty() =~= fields_view(acc@));
        }
        if !(cur < s.len() && s[cur] == QUOTE) {
            return None;
        }
        match str_scan_x(s, cur + 1) {
            None => {
                return None;
            },
            Some((keyv, j)) => {
                let k = ws_end_x(s, j);
                if !(k < s.len() && s[k] == COLON) {
                    return None;
                }
                let m = ws_end_x(s, k + 1);
                match field_scan_x(s, m, depth) {
                    None => {
                        return None;
                    },
                    Some((fv, p)) => {
                        let q = ws_end_x(s, p);
                        let ghost acc0 = acc@;
                        let ghost keyg = keyv@;
                        let ghost fg = fv@;
                        acc.push((keyv, fv));
                        proof {
                            assert(fields_view(acc@) =~= fields_view(acc0) + seq![(keyg, fg)]);
                        }
                        if q < s.len() && s[q] == COMMA {
                            let r2 = ws_end_x(s, q + 1);
                            proof {
                                match (g, obj_scan(s@, r2 as int, depth as int)) {
                                    (Some((fs, e)), Some((fs2, e2))) => {
                                        assert(fields_view(acc0) + (seq![(keyg, fg)] + fs2)
                                            =~= fields_view(acc@) + fs2);
                                    },
                                    _ => {},
                                }
                            }
                            cur = r2;
                        } else if q < s.len() && s[q] == RBRACE {
                            proof {
                                assert(fields_view(acc0) + seq![(keyg, fg)] =~= fields_view(
                                    acc@,
                                ));
                            }
                            return Some((JsonObj { fields: acc }, q + 1));
                        } else {
                            return None;
                        }
                    },
                }
            },
        }
    }
}

/// Parse a whole JSON text into its decoded top-level form.
///
/// Returns `Some` exactly when the grammar accepts the bytes as one
/// JSON value surrounded only by whitespace, and then returns exactly
/// the decoded value the grammar assigns to them.
pub fn parse_top(s: &[u8]) -> (r: Option<JsonTop>)
    ensures
        match r {
            Some(t) => json_top(s@) == Some(t@),
            None => json_top(s@) is None,
        },
{
    let i = ws_end_x(s, 0);
    if i >= s.len() {
        return None;
    }
    if s[i] == LBRACE {
        let j = ws_end_x(s, i + 1);
        if j < s.len() && s[j] == RBRACE {
            if ws_end_x(s, j + 1) == s.len() {
                proof {
                    assert(fields_view(Seq::<(Vec<u8>, JsonField)>::empty()) =~= Seq::<
                        (Seq<u8>, FieldData),
                    >::empty());
                }
                return Some(JsonTop::Obj(JsonObj { fields: Vec::new() }));
            } else {
                return None;
            }
        }
        match obj_scan_x(s, j, DEPTH_LIMIT - 1) {
            None => None,
            Some((o, e)) => {
                if ws_end_x(s, e) == s.len() {
                    Some(JsonTop::Obj(o))
                } else {
                    None
                }
            },
        }
    } else {
        match field_scan_x(s, i, DEPTH_LIMIT) {
            None => None,
            Some((f, e)) => {
                if ws_end_x(s, e) == s.len() {
                    Some(JsonTop::Scalar(f))
                } else {
                    None
                }
            },
        }
    }
}

/// Value of `key` among an object's members, later occurrence first.
pub fn obj_get<'a>(o: &'a JsonObj, key: &[u8]) -> (r: Option<&'a JsonField>)
    ensures
        match r {
            Some(f) => obj_lookup(o@, key@) == Some(f@),
            None => obj_lookup(o@, key@) is None,
        },
{
    let mut idx: usize = o.fields.len();
    proof {
        assert(o@.take(idx as int) =~= o@);
    }
    loop
        invariant
            idx <= o.fields.len(),
            obj_lookup(o@, key@) == obj_lookup(o@.take(idx as int), key@),
        decreases idx,
    {
        if idx == 0 {
            proof {
                assert(o@.take(0) =~= Seq::<(Seq<u8>, FieldData)>::empty());
            }
            return None;
        }
        idx = idx - 1;
        let pair = &o.fields[idx];
        if bytes_eq(pair.0.as_slice(), key) {
            proof {
                assert(o@.take(idx + 1).last() == o@[idx as int]);
            }
            return Some(&pair.1);
        }
        proof {
            assert(o@.take(idx + 1).last() == o@[idx as int]);
            assert(o@.take(idx + 1).drop_last() =~= o@.take(idx as int));
        }
    }
}

/// Elements of a non-empty array of strings whose first element's
/// quote stands at `i`: the unescaped strings in order, and the index
/// just past the closing bracket. `None` when an element is not a
/// string or the list is malformed.
pub open spec fn str_elems(s: Seq<u8>, i: int) -> Option<(Seq<Seq<u8>>, int)>
    decreases s.len() - i,
{
    if !(0 <= i < s.len() && s[i] == QUOTE) {
        None
    } else {
        match str_scan(s, i + 1) {
            None => None,
            Some((v, j)) => if j <= i {
                None
            } else {
                let k = ws_end(s, j);
                if k < j {
                    None
                } else if k < s.len() && s[k] == COMMA {
                    let m = ws_end(s, k + 1);
                    if m <= i || m > s.len() {
                        None
                    } else {
                        match str_elems(s, m) {
                            None => None,
                            Some((rest, e)) => Some((seq![v] + rest, e)),
                        }
                    }
                } else if k < s.len() && s[k] == RBRACKET {
                    Some((seq![v], k + 1))
                } else {
                    None
                }
            },
        }
    }
}

/// A whole JSON array of strings: `Some` exactly when the bytes are
/// one array whose elements are all strings, with only whitespace
/// around it.
pub open spec fn str_list(s: Seq<u8>) -> Option<Seq<Seq<u8>>> {
    let i = ws_end(s, 0);
    if !(0 <= i < s.len() && s[i] == LBRACKET) {
        None
    } else {
        let j = ws_end(s, i + 1);
        if j <= i {
            None
        } else if j < s.len() && s[j] == RBRACKET {
            if ws_end(s, j + 1) == s.len() {
                Some(Seq::empty())
            } else {
                None
            }
        } else {
            match str_elems(s, j) {
                None => None,
                Some((vs, e)) => if ws_end(s, e) == s.len() {
                    Some(vs)
                } else {
                    None
                },
            }
        }
    }
}

/// Spec view of a vector of byte strings.
pub open spec fn bytes_list_view(v: Seq<Vec<u8>>) -> Seq<Seq<u8>> {
    Seq::new(v.len(), |k: int| v[k]@)
}

/// Parse a whole JSON array of strings.
pub fn parse_str_list(s: &[u8]) -> (r: Option<Vec<Vec<u8>>>)
    ensures
        match r {
            Some(vs) => str_list(s@) == Some(bytes_list_view(vs@)),
            None => str_list(s@) is None,
        },
{
    let i = ws_end_x(s, 0);
    if !(i < s.len() && s[i] == LBRACKET) {
        return None;
    }
    let j = ws_end_x(s, i + 1);
    if j < s.len() && s[j] == RBRACKET {
        if ws_end_x(s, j + 1) == s.len() {
            proof {
                assert(bytes_list_view(Seq::<Vec<u8>>::empty()) =~= Seq::<Seq<u8>>::empty());
            }
            return Some(Vec::new());
        } else {
            return None;
        }
    }
    let ghost g = str_elems(s@, j as int);
    let mut acc: Vec<Vec<u8>> = Vec::new();
    let mut cur: usize = j;
    proof {
        assert(bytes_list_view(acc@) =~= Seq::<Seq<u8>>::empty());
        match g {
            Some((vs, e)) => {
                assert(bytes_list_view(acc@) + vs =~= vs);
            },
            None => {},
        }
    }
    loop
        invariant
            i < j <= cur <= s.len(),
            g == str_elems(s@, j as int),
            ({
                match g {
                    None => str_list(s@) is None,
                    Some((vs, e)) => str_list(s@) == (if ws_end(s@, e) == s@.len() {
                        Some(vs)
                    } else {
                        None::<Seq<Seq<u8>>>
                    }),
                }
            }),
            ({
                match (g, str_elems(s@, cur as int)) {
                    (Some((vs, e)), Some((vs2, e2))) => vs == bytes_list_view(acc@) + vs2 && e
                        == e2,
                    (None, None) => true,
                    _ => false,
                }
            }),
        decreases s.len() - cur,
    {
        if !(cur < s.len() && s[cur] == QUOTE) {
            return None;
        }
        match str_scan_x(s, cur + 1) {
            None => {
                return None;
            },
            Some((v, j2)) => {
                let k = ws_end_x(s, j2);
                let ghost acc0 = acc@;
                let ghost vg = v@;
                acc.push(v);
                proof {
                    assert(bytes_list_view(acc@) =~= bytes_list_view(acc0) + seq![vg]);
                }
                if k < s.len() && s[k] == COMMA {
                    let m = ws_end_x(s, k + 1);
                    proof {
                        match (g, str_elems(s@, m as int)) {
                            (Some((vs, e)), Some((vs2, e2))) => {
                                assert(bytes_list_view(acc0) + (seq![vg] + vs2)
                                    =~= bytes_list_view(acc@) + vs2);
                            },
                            _ => {},
                        }
                    }
                    cur = m;
                } else if k < s.len() && s[k] == RBRACKET {
                    proof {
                        assert(bytes_list_view(acc0) + seq![vg] =~= bytes_list_view(acc@));
                    }
                    if ws_end_x(s, k + 1) == s.len() {
                        return Some(acc);
                    } else {
                        return None;
                    }
                } else {
                    return None;
                }
            },
        }
    }
}

/// Value of a run of decimal digit bytes (meaningful when all digits).
pub open spec fn dec_val(s: Seq<u8>) -> int
    decreases s.len(),
{
    if s.len() == 0 {
        0
    } else {
        dec_val(s.subrange(0, s.len() - 1)) * 10 + (s[s.len() - 1] - 0x30)
    }
}

/// All bytes are decimal digits.
pub open spec fn all_digits(s: Seq<u8>) -> bool {
    forall|k: int| 0 <= k < s.len() ==> is_digit(s[k])
}

/// Parse a decimal byte string into a `u16`: succeeds exactly on a
/// non-empty, all-digit string whose value fits.
pub fn parse_u16(s: &[u8]) -> (r: Option<u16>)
    ensures
        match r {
            Some(v) => s@.len() > 0 && all_digits(s@) && dec_val(s@) == v as int,
            None => s@.len() == 0 || !all_digits(s@) || dec_val(s@) > u16::MAX,
        },
{
    if s.len() == 0 {
        return None;
    }
    let mut acc: u32 = 0;
    let mut idx: usize = 0;
    while idx < s.len()
        invariant
            idx <= s.len(),
            all_digits(s@.subrange(0, idx as int)),
            acc == dec_val(s@.subrange(0, idx as int)),
            acc <= 0xffff,
        decreases s.len() - idx,
    {
        let b = s[idx];
        if !(0x30 <= b && b <= 0x39) {
            proof {
                assert(!is_digit(s@[idx as int]));
            }
            return None;
        }
        let next: u32 = acc * 10 + ((b - 0x30) as u32);
        proof {
            assert(s@.subrange(0, idx + 1).drop_last() =~= s@.subrange(0, idx as int));
            assert(s@.subrange(0, idx + 1).last() == s@[idx as int]);
            assert(dec_val(s@.subrange(0, idx + 1)) == dec_val(s@.subrange(0, idx as int)) * 10 + (
            s@[idx as int] - 0x30));
        }
        if next > 0xffff {
            proof {
                lemma_dec_val_monotone(s@, idx + 1);
            }
            return None;
        }
        acc = next;
        idx = idx + 1;
    }
    proof {
        assert(s@.subrange(0, s@.len() as int) =~= s@);
    }
    Some(acc as u16)
}

/// An all-digit string has a nonnegative value.
pub proof fn lemma_dec_val_nonneg(s: Seq<u8>)
    requires
        all_digits(s),
    ensures
        dec_val(s) >= 0,
    decreases s.len(),
{
    if s.len() > 0 {
        assert(all_digits(s.subrange(0, s.len() - 1))) by {
            assert(forall|t: int|
                0 <= t < s.len() - 1 ==> s.subrange(0, s.len() - 1)[t] == s[t]);
        }
        lemma_dec_val_nonneg(s.subrange(0, s.len() - 1));
    }
}

/// A longer digit prefix never has a smaller value.
pub proof fn lemma_dec_val_monotone(s: Seq<u8>, k: int)
    requires
        0 <= k <= s.len(),
        all_digits(s.subrange(0, k)),
    ensures
        dec_val(s) >= dec_val(s.subrange(0, k)) || !all_digits(s),
    decreases s.len() - k,
{
    if k < s.len() {
        if all_digits(s) {
            assert(all_digits(s.subrange(0, k + 1))) by {
                assert(forall|t: int|
                    0 <= t < k + 1 ==> s.subrange(0, k + 1)[t] == s[t]);
            }
            assert(s.subrange(0, k + 1).drop_last() =~= s.subrange(0, k));
            assert(dec_val(s.subrange(0, k + 1)) == dec_val(s.subrange(0, k)) * 10 + (s[k]
                - 0x30));
            lemma_dec_val_nonneg(s.subrange(0, k));
            assert(dec_val(s.subrange(0, k + 1)) >= dec_val(s.subrange(0, k)));
            lemma_dec_val_monotone(s, k + 1);
        }
    } else {
        assert(s.subrange(0, k) =~= s);
    }
}

} // verus!
