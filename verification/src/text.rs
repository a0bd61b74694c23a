//! Reading the text of option keys and values: comparing strings, and
//! reading booleans and decimal numbers.

use vstd::prelude::*;

verus! {

/// Whether two strings are equal.
pub fn squash_text_equal(a: &str, b: &str) -> (equal: bool)
    ensures
        equal == (a@ == b@),
{
    let x: &[u8] = a.as_bytes();
    let y: &[u8] = b.as_bytes();
    proof {
        vstd::utf8::encode_utf8_decode_utf8(a@);
        vstd::utf8::encode_utf8_decode_utf8(b@);
    }
    if x.len() != y.len() {
        return false;
    }
    let mut i: usize = 0;
    while i < x.len()
        invariant
            i <= x@.len(),
            x@.len() == y@.len(),
            a@ == b@ ==> x@ == y@,
            x@ == y@ ==> a@ == b@,
            forall|k: int| 0 <= k < i ==> x@[k] == y@[k],
        decreases x@.len() - i,
    {
        if x[i] != y[i] {
            return false;
        }
        i = i + 1;
    }
    proof {
        assert(x@ =~= y@);
    }
    true
}

/// The lower-case form of an ASCII letter; any other byte is left as it is.
pub open spec fn squash_text_lower(byte: u8) -> u8 {
    if 65 <= byte <= 90 {
        (byte + 32) as u8
    } else {
        byte
    }
}

/// The boolean that `text` spells, whatever the case of its letters:
/// `true`, `yes`, `on`, `t`, `y` and `1` spell true; `false`, `no`, `off`,
/// `f`, `n` and `0` spell false. Any other text spells no boolean.
pub open spec fn squash_text_bool(text: Seq<u8>) -> Option<bool> {
    let lower = text.map_values(|byte: u8| squash_text_lower(byte));
    if lower == seq![116u8, 114, 117, 101] || lower == seq![121u8, 101, 115] || lower == seq![
        111u8,
        110,
    ] || lower == seq![116u8] || lower == seq![121u8] || lower == seq![49u8] {
        Some(true)
    } else if lower == seq![102u8, 97, 108, 115, 101] || lower == seq![110u8, 111] || lower
        == seq![111u8, 102, 102] || lower == seq![102u8] || lower == seq![110u8] || lower
        == seq![48u8] {
        Some(false)
    } else {
        None
    }
}

/// The lower-case form of an ASCII letter; any other byte is left as it is.
fn lower(byte: u8) -> (low: u8)
    ensures
        low == squash_text_lower(byte),
{
    if 65 <= byte && byte <= 90 {
        byte + 32
    } else {
        byte
    }
}

/// Reads a boolean.
pub fn squash_text_to_bool(text: &[u8]) -> (value: Option<bool>)
    ensures
        value == squash_text_bool(text@),
{
    let ghost low = text@.map_values(|byte: u8| squash_text_lower(byte));
    let size: usize = text.len();
    proof {
        let yes = seq![121u8, 101, 115];
        let on = seq![111u8, 110];
        let truth = seq![116u8, 114, 117, 101];
        let no = seq![110u8, 111];
        let off = seq![111u8, 102, 102];
        let falsehood = seq![102u8, 97, 108, 115, 101];
        assert(seq![116u8].len() == 1 && seq![116u8][0] == 116);
        assert(seq![121u8].len() == 1 && seq![121u8][0] == 121);
        assert(seq![49u8].len() == 1 && seq![49u8][0] == 49);
        assert(seq![102u8].len() == 1 && seq![102u8][0] == 102);
        assert(seq![110u8].len() == 1 && seq![110u8][0] == 110);
        assert(seq![48u8].len() == 1 && seq![48u8][0] == 48);
        assert(on.len() == 2 && on[0] == 111 && on[1] == 110);
        assert(yes.len() == 3 && yes[0] == 121 && yes[1] == 101 && yes[2] == 115);
        assert(off.len() == 3 && off[0] == 111 && off[1] == 102 && off[2] == 102);
        assert(truth.len() == 4 && truth[0] == 116 && truth[1] == 114 && truth[2] == 117
            && truth[3] == 101);
        assert(falsehood.len() == 5 && falsehood[0] == 102 && falsehood[1] == 97 && falsehood[2]
            == 108 && falsehood[3] == 115 && falsehood[4] == 101);
    }
    if size == 1 {
        let a: u8 = lower(text[0]);
        if a == 116 {
            assert(low =~= seq![116u8]);
            Some(true)
        } else if a == 121 {
            assert(low =~= seq![121u8]);
            Some(true)
        } else if a == 49 {
            assert(low =~= seq![49u8]);
            Some(true)
        } else if a == 102 {
            assert(low =~= seq![102u8]);
            Some(false)
        } else if a == 110 {
            assert(low =~= seq![110u8]);
            Some(false)
        } else if a == 48 {
            assert(low =~= seq![48u8]);
            Some(false)
        } else {
            None
        }
    } else if size == 2 {
        let a: u8 = lower(text[0]);
        let b: u8 = lower(text[1]);
        if a == 111 && b == 110 {
            assert(low =~= seq![111u8, 110]);
            Some(true)
        } else if a == 110 && b == 111 {
            assert(low =~= seq![110u8, 111]);
            Some(false)
        } else {
            None
        }
    } else if size == 3 {
        let a: u8 = lower(text[0]);
        let b: u8 = lower(text[1]);
        let c: u8 = lower(text[2]);
        if a == 121 && b == 101 && c == 115 {
            assert(low =~= seq![121u8, 101, 115]);
            Some(true)
        } else if a == 111 && b == 102 && c == 102 {
            assert(low =~= seq![111u8, 102, 102]);
            Some(false)
        } else {
            None
        }
    } else if size == 4 {
        let a: u8 = lower(text[0]);
        let b: u8 = lower(text[1]);
        let c: u8 = lower(text[2]);
        let d: u8 = lower(text[3]);
        if a == 116 && b == 114 && c == 117 && d == 101 {
            assert(low =~= seq![116u8, 114, 117, 101]);
            Some(true)
        } else {
            None
        }
    } else if size == 5 {
        let a: u8 = lower(text[0]);
        let b: u8 = lower(text[1]);
        let c: u8 = lower(text[2]);
        let d: u8 = lower(text[3]);
        let e: u8 = lower(text[4]);
        if a == 102 && b == 97 && c == 108 && d == 115 && e == 101 {
            assert(low =~= seq![102u8, 97, 108, 115, 101]);
            Some(false)
        } else {
            None
        }
    } else {
        None
    }
}

/// Whether `text` is made of decimal digits, and of at least one.
pub open spec fn squash_text_is_digits(text: Seq<u8>) -> bool {
    &&& text.len() > 0
    &&& forall|i: int| 0 <= i < text.len() ==> 48 <= #[trigger] text[i] <= 57
}

/// The number that the decimal digits `text` spell.
pub open spec fn squash_text_digits(text: Seq<u8>) -> nat
    decreases text.len(),
{
    if text.len() == 0 {
        0
    } else {
        squash_text_digits(text.drop_last()) * 10 + (text.last() - 48) as nat
    }
}

/// The integer that `text` spells in decimal: digits, with or without a
/// sign in front of them. Any other text spells no integer.
pub open spec fn squash_text_integer(text: Seq<u8>) -> Option<int> {
    if text.len() > 0 && text[0] == 45 {
        if squash_text_is_digits(text.subrange(1, text.len() as int)) {
            Some(-(squash_text_digits(text.subrange(1, text.len() as int)) as int))
        } else {
            None
        }
    } else if text.len() > 0 && text[0] == 43 {
        if squash_text_is_digits(text.subrange(1, text.len() as int)) {
            Some(squash_text_digits(text.subrange(1, text.len() as int)) as int)
        } else {
            None
        }
    } else if squash_text_is_digits(text) {
        Some(squash_text_digits(text) as int)
    } else {
        None
    }
}

/// The greatest number that `magnitude` tells exactly.
pub const SQUASH_TEXT_LIMIT: u128 = 0x1_0000_0000_0000_0000;

/// Reads the decimal digits of `text` from `from` on. Returns nothing if
/// they are not digits, or not even one; otherwise the number they spell,
/// or, if that is more than `SQUASH_TEXT_LIMIT`, some number above the
/// limit.
fn magnitude(text: &[u8], from: usize) -> (number: Option<u128>)
    requires
        from <= text@.len(),
    ensures
        number is Some <==> squash_text_is_digits(text@.subrange(from as int, text@.len() as int)),
        number matches Some(value) ==> {
            let exact = squash_text_digits(text@.subrange(from as int, text@.len() as int));
            if exact <= SQUASH_TEXT_LIMIT {
                value == exact
            } else {
                value > SQUASH_TEXT_LIMIT
            }
        },
{
    let size: usize = text.len();
    let ghost digits = text@.subrange(from as int, size as int);
    if from == size {
        return None;
    }
    let mut value: u128 = 0;
    let mut i: usize = from;
    while i < size
        invariant
            from <= i <= size,
            size == text@.len(),
            digits == text@.subrange(from as int, size as int),
            forall|k: int| from <= k < i ==> 48 <= #[trigger] text@[k] <= 57,
            ({
                let exact = squash_text_digits(text@.subrange(from as int, i as int));
                if exact <= SQUASH_TEXT_LIMIT {
                    value == exact
                } else {
                    SQUASH_TEXT_LIMIT < value <= SQUASH_TEXT_LIMIT * 10 + 9
                }
            }),
        decreases size - i,
    {
        let byte: u8 = text[i];
        if byte < 48 || byte > 57 {
            proof {
                assert(digits[i - from] == byte);
            }
            return None;
        }
        proof {
            let before = text@.subrange(from as int, i as int);
            let after = text@.subrange(from as int, i + 1);
            assert(after.drop_last() =~= before);
        }
        if value <= SQUASH_TEXT_LIMIT {
            value = value * 10 + (byte - 48) as u128;
        }
        i = i + 1;
    }
    Some(value)
}

/// What reading a number from a text gives.
pub enum SquashNumber<T> {
    /// The text spells no integer.
    Malformed,
    /// The text spells an integer that the type of the number cannot hold.
    OutOfRange,
    /// The number that the text spells.
    Value(T),
}

/// Reads a signed integer in decimal.
pub fn squash_text_to_int(text: &[u8]) -> (number: SquashNumber<i32>)
    ensures
        match squash_text_integer(text@) {
            None => number is Malformed,
            Some(value) => if i32::MIN <= value <= i32::MAX {
                number == SquashNumber::Value(value as i32)
            } else {
                number is OutOfRange
            },
        },
{
    let size: usize = text.len();
    let negative: bool = size > 0 && text[0] == 45;
    let signed: bool = size > 0 && (text[0] == 45 || text[0] == 43);
    let from: usize = if signed {
        1
    } else {
        0
    };
    proof {
        assert(text@.subrange(0, size as int) =~= text@);
    }
    match magnitude(text, from) {
        None => SquashNumber::Malformed,
        Some(value) => {
            if negative {
                if value <= 0x8000_0000 {
                    SquashNumber::Value((-(value as i64)) as i32)
                } else {
                    SquashNumber::OutOfRange
                }
            } else {
                if value <= 0x7fff_ffff {
                    SquashNumber::Value(value as i32)
                } else {
                    SquashNumber::OutOfRange
                }
            }
        },
    }
}

/// Reads an unsigned size in decimal.
pub fn squash_text_to_size(text: &[u8]) -> (number: SquashNumber<usize>)
    ensures
        match squash_text_integer(text@) {
            None => number is Malformed,
            Some(value) => if 0 <= value <= usize::MAX {
                number == SquashNumber::Value(value as usize)
            } else {
                number is OutOfRange
            },
        },
{
    let size: usize = text.len();
    let negative: bool = size > 0 && text[0] == 45;
    let signed: bool = size > 0 && (text[0] == 45 || text[0] == 43);
    let from: usize = if signed {
        1
    } else {
        0
    };
    proof {
        assert(text@.subrange(0, size as int) =~= text@);
    }
    match magnitude(text, from) {
        None => SquashNumber::Malformed,
        Some(value) => {
            if negative {
                if value == 0 {
                    SquashNumber::Value(0)
                } else {
                    SquashNumber::OutOfRange
                }
            } else {
                if value <= usize::MAX as u128 {
                    SquashNumber::Value(value as usize)
                } else {
                    SquashNumber::OutOfRange
                }
            }
        },
    }
}

} // verus!
