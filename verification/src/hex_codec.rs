use vstd::prelude::*;
use vstd::string::StrSliceExecFns;
use vstd::string::StringExecFns;
use vstd::utf8::is_ascii_chars;
use crate::errors::PqcError;

verus! {

/// `c` is one of `0-9`, `a-f`, `A-F`.
pub open spec fn is_hex_digit(c: char) -> bool {
    (48 <= c as u32 && c as u32 <= 57) || (97 <= c as u32 && c as u32 <= 102) || (65 <= c as u32
        && c as u32 <= 70)
}

/// The value (0..16) denoted by the hex digit `c`.
pub open spec fn nibble_of(c: char) -> u8
    recommends
        is_hex_digit(c),
{
    if 48 <= c as u32 && c as u32 <= 57 {
        (c as u32 - 48) as u8
    } else if 97 <= c as u32 && c as u32 <= 102 {
        (c as u32 - 87) as u8
    } else {
        (c as u32 - 55) as u8
    }
}

/// The lower-case hex digit denoting the value `n` (0..16).
pub open spec fn hex_digit_char(n: u8) -> char
    recommends
        n < 16,
{
    if n == 0 {
        '0'
    } else if n == 1 {
        '1'
    } else if n == 2 {
        '2'
    } else if n == 3 {
        '3'
    } else if n == 4 {
        '4'
    } else if n == 5 {
        '5'
    } else if n == 6 {
        '6'
    } else if n == 7 {
        '7'
    } else if n == 8 {
        '8'
    } else if n == 9 {
        '9'
    } else if n == 10 {
        'a'
    } else if n == 11 {
        'b'
    } else if n == 12 {
        'c'
    } else if n == 13 {
        'd'
    } else if n == 14 {
        'e'
    } else {
        'f'
    }
}

/// The lower-case hex encoding of `bytes`: two digits per byte, high nibble
/// first.
pub open spec fn hex_of(bytes: Seq<u8>) -> Seq<char> {
    Seq::new(
        2 * bytes.len(),
        |i: int|
            if i % 2 == 0 {
                hex_digit_char(bytes[i / 2] / 16)
            } else {
                hex_digit_char(bytes[i / 2] % 16)
            },
    )
}

/// `s` is a well-formed hex string: even length, hex digits throughout.
pub open spec fn is_hex_seq(s: Seq<char>) -> bool {
    s.len() % 2 == 0 && forall|i: int| 0 <= i < s.len() ==> is_hex_digit(#[trigger] s[i])
}

/// The byte string denoted by the hex string `s`.
pub open spec fn bytes_of_hex(s: Seq<char>) -> Seq<u8>
    recommends
        is_hex_seq(s),
{
    Seq::new(s.len() / 2, |i: int| (nibble_of(s[2 * i]) * 16 + nibble_of(s[2 * i + 1])) as u8)
}

/// A hex digit is an ASCII character.
proof fn lemma_hex_digit_ascii(c: char)
    requires
        is_hex_digit(c),
    ensures
        '\0' <= c <= '\u{7f}',
{
}

/// Each position of the digit table holds the digit for its own index.
proof fn lemma_digit_table()
    ensures
        "0123456789abcdef"@.len() == 16,
        forall|k: int| 0 <= k < 16 ==> "0123456789abcdef"@[k] == hex_digit_char(k as u8),
        is_ascii_chars("0123456789abcdef"@),
{
    reveal_strlit("0123456789abcdef");
    assert forall|k: int| 0 <= k < 16 implies "0123456789abcdef"@[k] == hex_digit_char(
        k as u8,
    ) by {
        if k == 0 {
        } else if k == 1 {
        } else if k == 2 {
        } else if k == 3 {
        } else if k == 4 {
        } else if k == 5 {
        } else if k == 6 {
        } else if k == 7 {
        } else if k == 8 {
        } else if k == 9 {
        } else if k == 10 {
        } else if k == 11 {
        } else if k == 12 {
        } else if k == 13 {
        } else if k == 14 {
        } else {
        }
    }
}

/// The digit of a value below 16 is a hex digit and denotes that value back.
proof fn lemma_hex_digit_char_props(n: u8)
    requires
        n < 16,
    ensures
        is_hex_digit(hex_digit_char(n)),
        nibble_of(hex_digit_char(n)) == n,
{
}

/// Encodes `bytes` as a lower-case hex string, two digits per byte.
pub fn encode_hex(bytes: &[u8]) -> (r: String)
    ensures
        r@ == hex_of(bytes@),
{
    let digits: &str = "0123456789abcdef";
    let mut out: String = String::new();
    let n: usize = bytes.len();
    let mut i: usize = 0;
    proof {
        assert(hex_of(bytes@.subrange(0, 0)) =~= Seq::<char>::empty());
    }
    while i < n
        invariant
            n == bytes@.len(),
            i <= n,
            digits@ == "0123456789abcdef"@,
            out@ == hex_of(bytes@.subrange(0, i as int)),
        decreases n - i,
    {
        proof {
            lemma_digit_table();
        }
        let b: u8 = bytes[i];
        let hi: usize = (b / 16) as usize;
        let lo: usize = (b % 16) as usize;
        out.append(digits.substring_ascii(hi, hi + 1));
        out.append(digits.substring_ascii(lo, lo + 1));
        proof {
            let prefix = bytes@.subrange(0, i as int);
            let next = bytes@.subrange(0, i + 1 as int);
            assert(out@ =~= hex_of(next)) by {
                assert(hex_of(prefix).len() == 2 * i);
                assert forall|k: int| 0 <= k < 2 * (i + 1) implies out@[k] == hex_of(next)[k] by {
                    if k < 2 * i {
                        assert(next[k / 2] == prefix[k / 2]);
                    } else if k == 2 * i {
                        assert(out@[k] == digits@.subrange(hi as int, hi + 1 as int)[0]);
                        assert(next[k / 2] == b);
                    } else {
                        assert(k == 2 * i + 1);
                        assert(out@[k] == digits@.subrange(lo as int, lo + 1 as int)[0]);
                        assert(next[k / 2] == b);
                    }
                }
            }
        }
        i = i + 1;
    }
    proof {
        assert(bytes@.subrange(0, n as int) =~= bytes@);
    }
    out
}

/// The value of the hex digit whose code is the byte `b`, if it is one.
fn hex_nibble(b: u8) -> (r: Option<u8>)
    ensures
        r is Some <==> (48 <= b <= 57 || 97 <= b <= 102 || 65 <= b <= 70),
        48 <= b <= 57 ==> r == Some((b - 48) as u8),
        97 <= b <= 102 ==> r == Some((b - 87) as u8),
        65 <= b <= 70 ==> r == Some((b - 55) as u8),
        r is Some ==> r->0 < 16,
{
    if 48 <= b && b <= 57 {
        Some(b - 48)
    } else if 97 <= b && b <= 102 {
        Some(b - 87)
    } else if 65 <= b && b <= 70 {
        Some(b - 55)
    } else {
        None
    }
}

/// Byte-level reading of the hex-digit predicates, for an ASCII character
/// `c` carried as its code `b`.
proof fn lemma_ascii_hex_digit(c: char, b: u8)
    requires
        (c as nat) < 128,
        b == (c as u8),
    ensures
        is_hex_digit(c) <==> (48 <= b <= 57 || 97 <= b <= 102 || 65 <= b <= 70),
        48 <= b <= 57 ==> nibble_of(c) == (b - 48) as u8,
        97 <= b <= 102 ==> nibble_of(c) == (b - 87) as u8,
        65 <= b <= 70 ==> nibble_of(c) == (b - 55) as u8,
{
}

/// Decodes the hex string `s` to bytes.
///
/// Returns `Ok` exactly when `s` has even length and holds hex digits only;
/// any other input is rejected as `InvalidHex`.
pub fn decode_hex(s: &str) -> (r: Result<Vec<u8>, PqcError>)
    ensures
        r is Ok <==> is_hex_seq(s@),
        r is Ok ==> r->Ok_0@ == bytes_of_hex(s@),
        r is Err ==> r->Err_0 == PqcError::InvalidHex,
{
    if !s.is_ascii() {
        proof {
            assert(!is_hex_seq(s@)) by {
                if is_hex_seq(s@) {
                    assert forall|i: int| 0 <= i < s@.len() implies '\0' <= #[trigger] s@[i]
                        <= '\u{7f}' by {
                        assert(is_hex_digit(s@[i]));
                        lemma_hex_digit_ascii(s@[i]);
                    }
                    assert(is_ascii_chars(s@));
                }
            }
        }
        return Err(PqcError::InvalidHex);
    }
    proof {
        vstd::string::is_ascii_spec_bytes(s);
        vstd::utf8::is_ascii_chars_nat_bound(s@);
    }
    let bytes: &[u8] = s.as_bytes();
    let n: usize = bytes.len();
    if n % 2 != 0 {
        return Err(PqcError::InvalidHex);
    }
    let mut out: Vec<u8> = Vec::new();
    let mut i: usize = 0;
    proof {
        assert(bytes_of_hex(s@.subrange(0, 0)) =~= Seq::<u8>::empty());
    }
    while i < n
        invariant
            n == s@.len(),
            n % 2 == 0,
            i % 2 == 0,
            i <= n,
            bytes@.len() == n,
            forall|j: int| 0 <= j < n ==> bytes@[j] == (#[trigger] s@[j] as u8),
            forall|j: int| 0 <= j < n ==> (#[trigger] s@[j] as nat) < 128,
            forall|j: int| 0 <= j < i ==> is_hex_digit(#[trigger] s@[j]),
            out@ == bytes_of_hex(s@.subrange(0, i as int)),
        decreases n - i,
    {
        let b1: u8 = bytes[i];
        let b2: u8 = bytes[i + 1];
        proof {
            lemma_ascii_hex_digit(s@[i as int], b1);
            lemma_ascii_hex_digit(s@[i + 1 as int], b2);
        }
        let r1 = hex_nibble(b1);
        let r2 = hex_nibble(b2);
        match (r1, r2) {
            (Some(hi), Some(lo)) => {
                out.push(hi * 16 + lo);
                proof {
                    let prefix = s@.subrange(0, i as int);
                    let next = s@.subrange(0, i + 2 as int);
                    assert(out@ =~= bytes_of_hex(next)) by {
                        assert forall|k: int| 0 <= k < (i + 2) / 2 implies out@[k] == bytes_of_hex(
                            next,
                        )[k] by {
                            if k < i / 2 {
                                assert(next[2 * k] == prefix[2 * k]);
                                assert(next[2 * k + 1] == prefix[2 * k + 1]);
                            } else {
                                assert(k == i / 2);
                                assert(next[2 * k] == s@[i as int]);
                                assert(next[2 * k + 1] == s@[i + 1 as int]);
                            }
                        }
                    }
                }
                i = i + 2;
            },
            _ => {
                proof {
                    if !is_hex_digit(s@[i as int]) {
                        assert(!is_hex_seq(s@));
                    } else {
                        assert(!is_hex_digit(s@[i + 1 as int]));
                        assert(!is_hex_seq(s@));
                    }
                }
                return Err(PqcError::InvalidHex);
            },
        }
    }
    proof {
        assert(s@.subrange(0, n as int) =~= s@);
    }
    Ok(out)
}

/// The colon-delimited pair of the hex encodings of `a` and `b`.
pub open spec fn hex_pair(a: Seq<u8>, b: Seq<u8>) -> Seq<char> {
    hex_of(a) + seq![':'] + hex_of(b)
}

/// Encodes `a` and `b` as hex and joins them with a colon.
pub fn join_hex_pair(a: &[u8], b: &[u8]) -> (r: String)
    ensures
        r@ == hex_pair(a@, b@),
{
    let mut out: String = encode_hex(a);
    out.append(":");
    let b_hex: String = encode_hex(b);
    out.append(b_hex.as_str());
    proof {
        reveal_strlit(":");
        assert(out@ =~= hex_pair(a@, b@));
    }
    out
}

/// Law: hex encoding round-trips.  The encoding of any byte string is a
/// well-formed hex string, and decoding it yields the bytes again.
pub proof fn lemma_hex_round_trip(bytes: Seq<u8>)
    ensures
        is_hex_seq(hex_of(bytes)),
        bytes_of_hex(hex_of(bytes)) =~= bytes,
{
    let h = hex_of(bytes);
    assert forall|i: int| 0 <= i < h.len() implies is_hex_digit(#[trigger] h[i]) by {
        if i % 2 == 0 {
            lemma_hex_digit_char_props(bytes[i / 2] / 16);
        } else {
            lemma_hex_digit_char_props(bytes[i / 2] % 16);
        }
    }
    assert forall|i: int| 0 <= i < bytes.len() implies bytes_of_hex(h)[i] == bytes[i] by {
        let b = bytes[i];
        lemma_hex_digit_char_props(b / 16);
        lemma_hex_digit_char_props(b % 16);
        assert(h[2 * i] == hex_digit_char(b / 16));
        assert(h[2 * i + 1] == hex_digit_char(b % 16));
        assert((b / 16) * 16 + b % 16 == b) by {
            vstd::arithmetic::div_mod::lemma_fundamental_div_mod(b as int, 16);
        }
    }
}

} // verus!
