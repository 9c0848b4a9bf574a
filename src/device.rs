//! Input devices, identified by their position in an enumeration.
use crate::error::CaptureError;
use vstd::prelude::*;
use vstd::string::StringSliceAdditionalSpecFns;
use vstd::utf8::{encode_utf8, is_ascii_chars, is_ascii_chars_encode_utf8};

verus! {

/// A selectable input device. `id` is its position in the enumeration that
/// produced it, in decimal, and is valid until the next enumeration.
pub struct AudioDevice {
    pub id: String,
    pub name: String,
}

pub open spec fn is_digit(b: u8) -> bool {
    48 <= b <= 57
}

/// The value of a string of decimal digits.
pub open spec fn digits_value(s: Seq<u8>) -> nat
    decreases s.len(),
{
    if s.len() == 0 {
        0
    } else {
        digits_value(s.drop_last()) * 10 + (s.last() - 48) as nat
    }
}

/// The text with one leading `+` removed, if it has one.
pub open spec fn unsigned_part(s: Seq<u8>) -> Seq<u8> {
    if s.len() > 0 && s[0] == 43 {
        s.drop_first()
    } else {
        s
    }
}

/// The ordinal that `s` spells: an optional `+` and at least one decimal
/// digit, nothing else, with a value that fits in `usize`.
pub open spec fn ordinal_of(s: Seq<u8>) -> Option<nat> {
    let t = unsigned_part(s);
    if t.len() > 0 && (forall|i: int| 0 <= i < t.len() ==> is_digit(#[trigger] t[i]))
        && digits_value(t) <= usize::MAX {
        Some(digits_value(t))
    } else {
        None
    }
}

/// A prefix of a digit string never has a larger value than the whole.
proof fn lemma_digits_prefix(t: Seq<u8>, k: int)
    requires
        0 <= k <= t.len(),
        forall|i: int| 0 <= i < t.len() ==> is_digit(#[trigger] t[i]),
    ensures
        digits_value(t.take(k)) <= digits_value(t),
    decreases t.len(),
{
    if k < t.len() {
        let u = t.drop_last();
        assert(u.take(k) =~= t.take(k));
        assert forall|i: int| 0 <= i < u.len() implies is_digit(#[trigger] u[i]) by {
            assert(u[i] == t[i]);
        }
        lemma_digits_prefix(u, k);
    } else {
        assert(t.take(k) =~= t);
    }
}

/// Reads a device ordinal the way `usize`'s `FromStr` does.
pub fn parse_ordinal(s: &str) -> (r: Option<usize>)
    ensures
        r is Some <==> ordinal_of(s.spec_bytes()) is Some,
        r is Some ==> r->0 as nat == ordinal_of(s.spec_bytes())->0,
{
    let b = s.as_bytes();
    let n = b.len();
    let start: usize = if n > 0 && b[0] == 43 { 1 } else { 0 };
    let ghost t = unsigned_part(b@);
    assert(t =~= b@.subrange(start as int, n as int));
    if start == n {
        return None;
    }
    let mut val: usize = 0;
    let mut i: usize = start;
    while i < n
        invariant
            b@ == s.spec_bytes(),
            n == b@.len(),
            start <= i <= n,
            t == b@.subrange(start as int, n as int),
            t == unsigned_part(s.spec_bytes()),
            forall|j: int| 0 <= j < i - start ==> is_digit(#[trigger] t[j]),
            val as nat == digits_value(t.take(i - start)),
        decreases n - i,
    {
        let c = b[i];
        if c < 48 || c > 57 {
            proof {
                assert(t[i - start] == b@[i as int]);
                assert(!is_digit(t[i - start]));
            }
            return None;
        }
        let next: u128 = val as u128 * 10 + (c - 48) as u128;
        proof {
            let k = i - start;
            assert(t.take(k + 1).drop_last() =~= t.take(k));
            assert(t.take(k + 1).last() == c);
            assert(t[k] == b@[i as int]);
            assert(digits_value(t.take(k + 1)) == digits_value(t.take(k)) * 10 + (c - 48) as nat);
        }
        if next > usize::MAX as u128 {
            proof {
                let k = i - start;
                if forall|j: int| 0 <= j < t.len() ==> is_digit(#[trigger] t[j]) {
                    lemma_digits_prefix(t, k + 1);
                }
            }
            return None;
        }
        val = next as usize;
        i += 1;
    }
    assert(t.take(n - start) =~= t);
    Some(val)
}

/// Resolves a device identifier against an enumeration of `device_count`
/// devices, giving the device's position.
pub fn resolve(id: &str, device_count: usize) -> (r: Result<usize, CaptureError>)
    ensures
        ordinal_of(id.spec_bytes()) is None ==> r == Err::<usize, CaptureError>(
            CaptureError::InvalidDeviceId,
        ),
        ordinal_of(id.spec_bytes()) is Some && ordinal_of(id.spec_bytes())->0 >= device_count
            ==> r == Err::<usize, CaptureError>(CaptureError::DeviceNotFound),
        ordinal_of(id.spec_bytes()) is Some && ordinal_of(id.spec_bytes())->0 < device_count
            ==> r == Ok::<usize, CaptureError>(ordinal_of(id.spec_bytes())->0 as usize),
{
    match parse_ordinal(id) {
        None => Err(CaptureError::InvalidDeviceId),
        Some(n) => if n < device_count {
            Ok(n)
        } else {
            Err(CaptureError::DeviceNotFound)
        },
    }
}

pub open spec fn digit_char(d: nat) -> char {
    ((d + 48) as u8) as char
}

/// The decimal digits of `n`, most significant first.
pub open spec fn decimal(n: nat) -> Seq<char>
    decreases n,
{
    if n < 10 {
        seq![digit_char(n)]
    } else {
        decimal(n / 10).push(digit_char(n % 10))
    }
}

/// The bytes of a text of ASCII characters.
pub open spec fn ascii_bytes(s: Seq<char>) -> Seq<u8> {
    s.map_values(|c: char| c as u8)
}

/// `decimal(n)` is a non-empty run of ASCII digits that reads back as `n`.
proof fn lemma_decimal_reads_back(n: nat)
    ensures
        is_ascii_chars(decimal(n)),
        decimal(n).len() > 0,
        forall|i: int| 0 <= i < decimal(n).len() ==> is_digit(#[trigger] decimal(n)[i] as u8),
        digits_value(ascii_bytes(decimal(n))) == n,
    decreases n,
{
    let d = decimal(n);
    assert(ascii_bytes(d).last() == d.last() as u8);
    assert(d.last() == digit_char(n % 10));
    assert(digit_char(n % 10) as u8 == n % 10 + 48);
    assert(ascii_bytes(d).len() == d.len());
    assert(digits_value(ascii_bytes(d)) == digits_value(ascii_bytes(d).drop_last()) * 10 + n % 10);
    if n < 10 {
        assert(ascii_bytes(d).drop_last() =~= Seq::<u8>::empty());
    } else {
        lemma_decimal_reads_back(n / 10);
        let p = decimal(n / 10);
        assert(ascii_bytes(d).drop_last() =~= ascii_bytes(p));
        assert forall|i: int| 0 <= i < d.len() implies '\0' <= #[trigger] d[i] <= '\u{7f}' by {
            if i < p.len() {
                assert(d[i] == p[i]);
            }
        }
    }
}

/// The id that `list_devices` gives the device at position `i` reads back
/// as `i`, so `resolve` finds that device again while the enumeration has
/// more than `i` devices.
pub proof fn lemma_listed_id_resolves(i: nat)
    requires
        i <= usize::MAX,
    ensures
        ordinal_of(encode_utf8(decimal(i))) == Some(i),
{
    let d = decimal(i);
    lemma_decimal_reads_back(i);
    is_ascii_chars_encode_utf8(d);
    let b = encode_utf8(d);
    assert(b =~= ascii_bytes(d));
    assert(unsigned_part(b) == b);
}

/// Relies on `ToString` for `usize`: its decimal digits, with no sign,
/// separator or padding.
#[verifier::external_body]
fn ordinal_text(n: usize) -> (r: String)
    ensures
        r@ == decimal(n as nat),
{
    n.to_string()
}

/// Gives each enumerated device, in enumeration order, its position as id.
pub fn list_devices(names: &Vec<String>) -> (r: Vec<AudioDevice>)
    ensures
        r@.len() == names@.len(),
        forall|i: int|
            0 <= i < r@.len() ==> (#[trigger] r@[i]).id@ == decimal(i as nat) && r@[i].name
                == names@[i],
{
    let mut out: Vec<AudioDevice> = Vec::new();
    let mut i: usize = 0;
    while i < names.len()
        invariant
            i <= names@.len(),
            out@.len() == i,
            forall|j: int|
                0 <= j < i ==> (#[trigger] out@[j]).id@ == decimal(j as nat) && out@[j].name
                    == names@[j],
        decreases names@.len() - i,
    {
        out.push(AudioDevice { id: ordinal_text(i), name: names[i].clone() });
        i += 1;
    }
    out
}

} // verus!
