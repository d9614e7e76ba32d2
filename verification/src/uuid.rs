//! Bluetooth UUIDs as plain 128-bit values.
//!
//! The platform talks in UUID text of several shapes: a 4-digit short
//! form, an 8-digit form, and the full hyphenated form. Short forms are
//! expanded over the standard Bluetooth base UUID before parsing. The
//! short printed form strips the base again.

use crate::errors::BluetoothError;
use vstd::prelude::*;

verus! {

/// The low 96 bits of every UUID built on the Bluetooth base.
pub const BLUETOOTH_BASE_TAIL: u128 = 0x0000_1000_8000_0080_5f9b_34fb;

/// Mask of the low 96 bits of a UUID value.
pub const UUID_TAIL_MASK: u128 = 0xffff_ffff_ffff_ffff_ffff_ffff;

/// The desk's advertised service.
pub const DESK_SERVICE_UUID_VALUE: u128 = 0x0000_ff12_0000_1000_8000_0080_5f9b_34fb;

/// The command-write characteristic.
pub const DESK_DATA_IN_UUID_VALUE: u128 = 0x0000_ff01_0000_1000_8000_0080_5f9b_34fb;

/// The telemetry-notify characteristic.
pub const DESK_DATA_OUT_UUID_VALUE: u128 = 0x0000_ff02_0000_1000_8000_0080_5f9b_34fb;

/// The read-only device-name characteristic.
pub const DESK_NAME_UUID_VALUE: u128 = 0x0000_ff06_0000_1000_8000_0080_5f9b_34fb;

/// Whether `c` is a hexadecimal digit, either case.
pub open spec fn is_hex_digit(c: char) -> bool {
    let x = c as int;
    (48 <= x <= 57) || (97 <= x <= 102) || (65 <= x <= 70)
}

/// The value of a hexadecimal digit, either case.
pub open spec fn hex_digit_value(c: char) -> int {
    let x = c as int;
    if 48 <= x <= 57 {
        x - 48
    } else if 97 <= x <= 102 {
        x - 87
    } else {
        x - 55
    }
}

/// Whether position `i` of the hyphenated UUID text holds a hyphen.
pub open spec fn is_hyphen_position(i: int) -> bool {
    i == 8 || i == 13 || i == 18 || i == 23
}

/// Well-formed hyphenated UUID text: 36 characters, hyphens at the four
/// fixed positions, hexadecimal digits everywhere else.
pub open spec fn is_uuid_text(s: Seq<char>) -> bool {
    &&& s.len() == 36
    &&& forall|i: int|
        0 <= i < 36 ==> (if is_hyphen_position(i) {
            s[i] == '-'
        } else {
            is_hex_digit(#[trigger] s[i])
        })
}

/// The value of the first `n` characters of hyphenated UUID text:
/// hyphens are skipped, each digit shifts the value by one nibble.
pub open spec fn uuid_value_prefix(s: Seq<char>, n: int) -> int
    decreases n,
{
    if n <= 0 {
        0
    } else if is_hyphen_position(n - 1) {
        uuid_value_prefix(s, n - 1)
    } else {
        uuid_value_prefix(s, n - 1) * 16 + hex_digit_value(s[n - 1])
    }
}

/// The 128-bit value of well-formed hyphenated UUID text.
pub open spec fn spec_uuid_value(s: Seq<char>) -> int {
    uuid_value_prefix(s, 36)
}

/// How many of the first `n` positions of the text are digits.
pub open spec fn nibbles_before(n: int) -> int
    decreases n,
{
    if n <= 0 {
        0
    } else if is_hyphen_position(n - 1) {
        nibbles_before(n - 1)
    } else {
        nibbles_before(n - 1) + 1
    }
}

/// Sixteen to the power `k` (one for `k <= 0`).
pub open spec fn pow16(k: int) -> int
    decreases k,
{
    if k <= 0 {
        1
    } else {
        16 * pow16(k - 1)
    }
}

proof fn lemma_pow16_pos(k: int)
    ensures
        pow16(k) >= 1,
    decreases k,
{
    if k > 0 {
        lemma_pow16_pos(k - 1);
    }
}

proof fn lemma_pow16_mono(k1: int, k2: int)
    requires
        k1 <= k2,
    ensures
        pow16(k1) <= pow16(k2),
    decreases k2 - k1,
{
    if k1 < k2 {
        lemma_pow16_mono(k1, k2 - 1);
        lemma_pow16_pos(k2 - 1);
    }
}

proof fn lemma_uuid_text_constants()
    ensures
        nibbles_before(35) == 31,
        nibbles_before(36) == 32,
        pow16(32) == 0x1_0000_0000_0000_0000_0000_0000_0000_0000,
{
    reveal_with_fuel(nibbles_before, 37);
    reveal_with_fuel(pow16, 33);
}

proof fn lemma_nibbles_mono(n1: int, n2: int)
    requires
        n1 <= n2,
    ensures
        nibbles_before(n1) <= nibbles_before(n2),
    decreases n2 - n1,
{
    if n1 < n2 {
        lemma_nibbles_mono(n1, n2 - 1);
    }
}

/// The text the parser actually reads: a 4-digit short form gains a
/// `0000` prefix, and an 8-digit form gains the Bluetooth base tail.
pub open spec fn normalized_uuid_text(s: Seq<char>) -> Seq<char> {
    let s1 = if s.len() == 4 {
        "0000"@ + s
    } else {
        s
    };
    if s1.len() == 8 {
        s1 + "-0000-1000-8000-00805f9b34fb"@
    } else {
        s1
    }
}

/// The lowercase hexadecimal character for a nibble value.
pub open spec fn spec_hex_char(v: int) -> char {
    if v == 0 {
        '0'
    } else if v == 1 {
        '1'
    } else if v == 2 {
        '2'
    } else if v == 3 {
        '3'
    } else if v == 4 {
        '4'
    } else if v == 5 {
        '5'
    } else if v == 6 {
        '6'
    } else if v == 7 {
        '7'
    } else if v == 8 {
        '8'
    } else if v == 9 {
        '9'
    } else if v == 10 {
        'a'
    } else if v == 11 {
        'b'
    } else if v == 12 {
        'c'
    } else if v == 13 {
        'd'
    } else if v == 14 {
        'e'
    } else {
        'f'
    }
}

/// The `n` lowercase hexadecimal characters of the low `4 * n` bits of
/// `v`, most significant nibble first.
pub open spec fn spec_hex_text(v: u128, n: int) -> Seq<char> {
    Seq::new(
        n as nat,
        |i: int| spec_hex_char(((v >> ((4 * (n - 1 - i)) as u128)) & 0xf) as int),
    )
}

/// The full 36-character hyphenated lowercase text of a UUID value.
pub open spec fn spec_uuid_full_text(v: u128) -> Seq<char> {
    spec_hex_text(v >> 96, 8) + seq!['-'] + spec_hex_text((v >> 80) & 0xffff, 4) + seq!['-']
        + spec_hex_text((v >> 64) & 0xffff, 4) + seq!['-'] + spec_hex_text((v >> 48) & 0xffff, 4)
        + seq!['-'] + spec_hex_text(v & 0xffff_ffff_ffff, 12)
}

/// The shortest text of a UUID value: a UUID over the Bluetooth base
/// prints as its 4- or 8-digit head, anything else as the full
/// hyphenated form.
pub open spec fn spec_short_uuid_text(v: u128) -> Seq<char> {
    if v & UUID_TAIL_MASK == BLUETOOTH_BASE_TAIL {
        if (v >> 96) < 0x10000 {
            spec_hex_text(v >> 96, 4)
        } else {
            spec_hex_text(v >> 96, 8)
        }
    } else {
        spec_uuid_full_text(v)
    }
}

proof fn lemma_nibble_bound(x: u128)
    ensures
        x & 0xf < 16,
{
    assert(x & 0xf < 16) by (bit_vector);
}

/// The one-character string for a nibble value.
fn hex_digit_str(v: u8) -> (r: &'static str)
    requires
        v < 16,
    ensures
        r@.len() == 1,
        r@[0] == spec_hex_char(v as int),
{
    if v == 0 {
        proof { reveal_strlit("0"); }
        "0"
    } else if v == 1 {
        proof { reveal_strlit("1"); }
        "1"
    } else if v == 2 {
        proof { reveal_strlit("2"); }
        "2"
    } else if v == 3 {
        proof { reveal_strlit("3"); }
        "3"
    } else if v == 4 {
        proof { reveal_strlit("4"); }
        "4"
    } else if v == 5 {
        proof { reveal_strlit("5"); }
        "5"
    } else if v == 6 {
        proof { reveal_strlit("6"); }
        "6"
    } else if v == 7 {
        proof { reveal_strlit("7"); }
        "7"
    } else if v == 8 {
        proof { reveal_strlit("8"); }
        "8"
    } else if v == 9 {
        proof { reveal_strlit("9"); }
        "9"
    } else if v == 10 {
        proof { reveal_strlit("a"); }
        "a"
    } else if v == 11 {
        proof { reveal_strlit("b"); }
        "b"
    } else if v == 12 {
        proof { reveal_strlit("c"); }
        "c"
    } else if v == 13 {
        proof { reveal_strlit("d"); }
        "d"
    } else if v == 14 {
        proof { reveal_strlit("e"); }
        "e"
    } else {
        proof { reveal_strlit("f"); }
        "f"
    }
}

/// Append the `n` hexadecimal characters of the low `4 * n` bits of
/// `v` to `out`, most significant nibble first.
fn append_hex(out: &mut String, v: u128, n: usize)
    requires
        n <= 32,
    ensures
        final(out)@ == old(out)@ + spec_hex_text(v, n as int),
{
    let mut i: usize = 0;
    while i < n
        invariant
            i <= n,
            n <= 32,
            out@ == old(out)@ + spec_hex_text(v, n as int).take(i as int),
        decreases n - i,
    {
        let sh: u128 = (4 * (n - 1 - i)) as u128;
        let shifted: u128 = v >> sh;
        proof {
            lemma_nibble_bound(shifted);
        }
        let nib: u8 = (shifted & 0xf) as u8;
        out.append(hex_digit_str(nib));
        proof {
            assert(spec_hex_text(v, n as int).take(i + 1) =~= spec_hex_text(v, n as int).take(
                i as int,
            ).push(spec_hex_text(v, n as int)[i as int]));
            assert(out@ =~= old(out)@ + spec_hex_text(v, n as int).take(i + 1));
        }
        i = i + 1;
    }
    proof {
        assert(spec_hex_text(v, n as int).take(n as int) =~= spec_hex_text(v, n as int));
    }
}

/// A Bluetooth UUID, held as its 128-bit value.
#[derive(Clone, Copy, Debug, PartialEq, Eq, Hash, Structural)]
pub struct Uuid {
    value: u128,
}

impl Uuid {
    /// The 128-bit value of the UUID.
    pub closed spec fn spec_value(self) -> u128 {
        self.value
    }

    /// The 128-bit value of the UUID.
    pub fn value(&self) -> (r: u128)
        ensures
            r == self.spec_value(),
    {
        self.value
    }

    /// The UUID with the given 128-bit value.
    pub fn from_value(value: u128) -> (r: Uuid)
        ensures
            r.spec_value() == value,
    {
        Uuid { value }
    }

    /// Expand a 16-bit short identifier over the Bluetooth base UUID.
    pub fn from_short(code: u16) -> (r: Uuid)
        ensures
            r.spec_value() == ((code as u128) << 96) | BLUETOOTH_BASE_TAIL,
    {
        Uuid { value: ((code as u128) << 96) | BLUETOOTH_BASE_TAIL }
    }

    /// Print the shortest text of the UUID: over the Bluetooth base the
    /// 4- or 8-digit head alone, otherwise the full hyphenated form,
    /// lowercase either way.
    pub fn to_short_string(&self) -> (r: String)
        ensures
            r@ == spec_short_uuid_text(self.spec_value()),
    {
        let v = self.value;
        if v & UUID_TAIL_MASK == BLUETOOTH_BASE_TAIL {
            let head: u128 = v >> 96;
            let mut out = String::new();
            if head < 0x10000 {
                append_hex(&mut out, head, 4);
            } else {
                append_hex(&mut out, head, 8);
            }
            proof {
                assert(out@ =~= spec_short_uuid_text(v));
            }
            out
        } else {
            proof {
                reveal_strlit("-");
            }
            let mut out = String::new();
            append_hex(&mut out, v >> 96, 8);
            out.append("-");
            append_hex(&mut out, (v >> 80) & 0xffff, 4);
            out.append("-");
            append_hex(&mut out, (v >> 64) & 0xffff, 4);
            out.append("-");
            append_hex(&mut out, (v >> 48) & 0xffff, 4);
            out.append("-");
            append_hex(&mut out, v & 0xffff_ffff_ffff, 12);
            proof {
                assert("-"@ =~= seq!['-']);
                assert(out@ =~= spec_uuid_full_text(v));
            }
            out
        }
    }

    /// Parse UUID text. A 4-character form is first padded to 8
    /// characters, an 8-character form is expanded over the Bluetooth
    /// base; what remains must be the full hyphenated form, in either
    /// case. The result is exactly the value the digits spell, and
    /// parsing fails exactly when the expanded text is not a
    /// well-formed hyphenated UUID.
    pub fn parse(s: &str) -> (r: Result<Uuid, BluetoothError>)
        ensures
            match r {
                Ok(u) => is_uuid_text(normalized_uuid_text(s@)) && u.spec_value()
                    == spec_uuid_value(normalized_uuid_text(s@)),
                Err(_) => !is_uuid_text(normalized_uuid_text(s@)),
            },
    {
        proof {
            reveal_strlit("0000");
            reveal_strlit("-0000-1000-8000-00805f9b34fb");
        }
        let t1 = if s.unicode_len() == 4 {
            String::from_str("0000").concat(s)
        } else {
            String::from_str(s)
        };
        let t = if t1.as_str().unicode_len() == 8 {
            t1.concat("-0000-1000-8000-00805f9b34fb")
        } else {
            t1
        };
        proof {
            assert(t@ == normalized_uuid_text(s@));
        }
        if t.as_str().unicode_len() != 36 {
            return Err(BluetoothError::new(String::from_str("the uuid text has the wrong length")));
        }
        let mut acc: u128 = 0;
        let mut i: usize = 0;
        while i < 36
            invariant
                t@ == normalized_uuid_text(s@),
                t@.len() == 36,
                i <= 36,
                forall|j: int|
                    0 <= j < i ==> (if is_hyphen_position(j) {
                        t@[j] == '-'
                    } else {
                        is_hex_digit(#[trigger] t@[j])
                    }),
                acc == uuid_value_prefix(t@, i as int),
                acc < pow16(nibbles_before(i as int)),
            decreases 36 - i,
        {
            let c = t.as_str().get_char(i);
            let hyphen_here = i == 8 || i == 13 || i == 18 || i == 23;
            if hyphen_here {
                if c != '-' {
                    proof {
                        assert(!(if is_hyphen_position(i as int) {
                            t@[i as int] == '-'
                        } else {
                            is_hex_digit(t@[i as int])
                        }));
                    }
                    return Err(BluetoothError::new(String::from_str("the uuid text is malformed")));
                }
            } else {
                let code = c as u32;
                let v: u8 = if 48 <= code && code <= 57 {
                    (code - 48) as u8
                } else if 97 <= code && code <= 102 {
                    (code - 87) as u8
                } else if 65 <= code && code <= 70 {
                    (code - 55) as u8
                } else {
                    proof {
                        assert(!(if is_hyphen_position(i as int) {
                            t@[i as int] == '-'
                        } else {
                            is_hex_digit(t@[i as int])
                        }));
                    }
                    return Err(BluetoothError::new(String::from_str("the uuid text is malformed")));
                };
                proof {
                    lemma_nibbles_mono(0, i as int);
                    lemma_nibbles_mono(i as int, 35);
                    lemma_uuid_text_constants();
                    lemma_pow16_mono(nibbles_before(i as int) + 1, 32);
                    assert(acc * 16 + v < pow16(nibbles_before(i as int) + 1));
                }
                acc = acc * 16 + (v as u128);
            }
            i = i + 1;
        }
        Ok(Uuid { value: acc })
    }
}

} // verus!
