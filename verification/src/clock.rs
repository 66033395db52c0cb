//! Identifiers and timestamps: fresh version-7 ids, name-based version-5
//! ids, and the RFC 3339 rendering of the time a version-7 id carries.
use vstd::prelude::*;
use crate::decimal::{dec_nat, u128_to_string};
use crate::text::{string_push_str, concat2, owned};

verus! {

/// Whether an id carries the marks of a version-7 UUID: the version nibble
/// (bits 76 to 79) is 7 and the variant (bits 62 and 63) is `10`.
pub open spec fn v7_marked(id: u128) -> bool {
    &&& (id as int / 0x1_0000_0000_0000_0000_000) % 16 == 7
    &&& (id as int / 0x4000_0000_0000_0000) % 4 == 2
}

/// Calls `uuid::Uuid::now_v7` and returns the id as an integer. A version-7
/// id starts with the current Unix time in milliseconds (48 bits), then the
/// version nibble 7, then counter and random bits around the variant `10`;
/// the contract states the two marks, not the time or the random bits.
#[verifier::external_body]
pub(crate) fn fresh_id() -> (id: u128)
    ensures
        v7_marked(id),
{
    uuid::Uuid::now_v7().as_u128()
}

/// The version-5 id (SHA-1, OID namespace) of a name.
pub uninterp spec fn oid_name_uuid(name: Seq<char>) -> u128;

/// Calls `uuid::Uuid::new_v5` in the OID namespace on the UTF-8 bytes of
/// `name`; the result depends on the name alone and is named
/// `oid_name_uuid`.
#[verifier::external_body]
pub(crate) fn name_uuid(name: &str) -> (id: u128)
    ensures
        id == oid_name_uuid(name@),
{
    uuid::Uuid::new_v5(&uuid::Uuid::NAMESPACE_OID, name.as_bytes()).as_u128()
}

/// The lower-case hexadecimal digit of a value below 16.
pub open spec fn hex_char(d: int) -> char {
    if d < 10 {
        (('0' as int) + d) as char
    } else {
        (('a' as int) + d - 10) as char
    }
}

/// Hex digit `k` (0 is the most significant of 32) of an id.
pub open spec fn nibble(x: u128, k: int) -> int {
    ((x as int) / vstd::arithmetic::power::pow(16, (31 - k) as nat)) % 16
}

/// The hyphenated lower-case text of an id: 32 hex digits in groups of
/// 8-4-4-4-12.
pub open spec fn hyphenated(x: u128) -> Seq<char> {
    Seq::new(
        36,
        |j: int|
            if j == 8 || j == 13 || j == 18 || j == 23 {
                '-'
            } else {
                let k = if j < 8 {
                    j
                } else if j < 13 {
                    j - 1
                } else if j < 18 {
                    j - 2
                } else if j < 23 {
                    j - 3
                } else {
                    j - 4
                };
                hex_char(nibble(x, k))
            },
    )
}

/// Calls `uuid::Uuid::hyphenated` on the id (the text uuid's `Debug` and
/// `Display` print): 32 lower-case hex digits in groups of 8-4-4-4-12.
#[verifier::external_body]
pub(crate) fn uuid_text(id: u128) -> (s: String)
    ensures
        s@ == hyphenated(id),
{
    uuid::Uuid::from_u128(id).hyphenated().to_string()
}

/// The Unix time in milliseconds that a version-7 id carries.
pub open spec fn v7_millis(id: u128) -> int {
    (id / 0x1_0000_0000_0000_0000_0000) as int
}

/// The civil date (year, month, day) of a day count since 1970-01-01
/// (days after the epoch only), by the era-based calendar algorithm.
pub open spec fn civil_date(days: int) -> (int, int, int) {
    let z = days + 719468;
    let era = z / 146097;
    let doe = z - era * 146097;
    let yoe = (doe - doe / 1460 + doe / 36524 - doe / 146096) / 365;
    let doy = doe - (365 * yoe + yoe / 4 - yoe / 100);
    let mp = (5 * doy + 2) / 153;
    let d = doy - (153 * mp + 2) / 5 + 1;
    let m = if mp < 10 { mp + 3 } else { mp - 9 };
    let y = yoe + era * 400 + if m <= 2 { 1int } else { 0int };
    (y, m, d)
}

/// A number with at least `w` digits, padded with zeros on the left.
pub open spec fn padded(v: nat, w: nat) -> Seq<char>
    decreases w,
{
    if w <= 1 || v >= pow10((w - 1) as nat) {
        dec_nat(v)
    } else {
        seq!['0'] + padded(v, (w - 1) as nat)
    }
}

/// Ten to the power `e`.
pub open spec fn pow10(e: nat) -> nat
    decreases e,
{
    if e == 0 {
        1
    } else {
        10 * pow10((e - 1) as nat)
    }
}

/// The RFC 3339 timestamp (`YYYY-MM-DDTHH:MM:SSZ`, UTC) of a Unix time in
/// seconds.
pub open spec fn rfc3339(secs: nat) -> Seq<char> {
    let days = secs / 86400;
    let rem = secs % 86400;
    let (y, m, d) = civil_date(days as int);
    padded(y as nat, 4) + seq!['-'] + padded(m as nat, 2) + seq!['-'] + padded(d as nat, 2) + seq!['T']
        + padded(rem / 3600, 2) + seq![':'] + padded((rem % 3600) / 60, 2) + seq![':'] + padded(rem % 60, 2)
        + seq!['Z']
}

fn pow10_exec(e: u32) -> (r: u128)
    requires
        e <= 3,
    ensures
        r == pow10(e as nat),
{
    proof {
        reveal_with_fuel(pow10, 4);
    }
    if e == 0 {
        1
    } else if e == 1 {
        10
    } else if e == 2 {
        100
    } else {
        1000
    }
}

fn padded_exec(v: u128, w: u32) -> (s: String)
    requires
        w <= 4,
    ensures
        s@ == padded(v as nat, w as nat),
    decreases w,
{
    if w <= 1 || v >= pow10_exec(w - 1) {
        u128_to_string(v)
    } else {
        let rest = padded_exec(v, w - 1);
        proof {
            reveal_strlit("0");
        }
        concat2("0", rest.as_str())
    }
}

/// The RFC 3339 timestamp of a Unix time in seconds (days after the epoch).
pub fn rfc3339_exec(secs: u64) -> (s: String)
    ensures
        s@ == rfc3339(secs as nat),
{
    let days: u64 = secs / 86400;
    let rem: u64 = secs % 86400;
    let z: u128 = days as u128 + 719468;
    let era: u128 = z / 146097;
    let doe: u128 = z - era * 146097;
    let yoe: u128 = (doe - doe / 1460 + doe / 36524 - doe / 146096) / 365;
    let doy: u128 = doe - (365 * yoe + yoe / 4 - yoe / 100);
    let mp: u128 = (5 * doy + 2) / 153;
    let d: u128 = doy - (153 * mp + 2) / 5 + 1;
    let m: u128 = if mp < 10 { mp + 3 } else { mp - 9 };
    let y: u128 = yoe + era * 400 + if m <= 2 { 1 } else { 0 };
    proof {
        reveal_strlit("-");
        reveal_strlit("T");
        reveal_strlit(":");
        reveal_strlit("Z");
    }
    let mut out = padded_exec(y, 4);
    string_push_str(&mut out, "-");
    string_push_str(&mut out, padded_exec(m, 2).as_str());
    string_push_str(&mut out, "-");
    string_push_str(&mut out, padded_exec(d, 2).as_str());
    string_push_str(&mut out, "T");
    string_push_str(&mut out, padded_exec((rem / 3600) as u128, 2).as_str());
    string_push_str(&mut out, ":");
    string_push_str(&mut out, padded_exec(((rem % 3600) / 60) as u128, 2).as_str());
    string_push_str(&mut out, ":");
    string_push_str(&mut out, padded_exec((rem % 60) as u128, 2).as_str());
    string_push_str(&mut out, "Z");
    out
}

/// Whether `s` is the RFC 3339 timestamp of some Unix time.
pub open spec fn is_timestamp(s: Seq<char>) -> bool {
    exists|t: u64| s == #[trigger] rfc3339(t as nat)
}

/// The current time as an RFC 3339 timestamp, read from the time a fresh
/// version-7 id carries.
pub fn current_timestamp() -> (s: String)
    ensures
        is_timestamp(s@),
{
    let id = fresh_id();
    let ms: u128 = id / 0x1_0000_0000_0000_0000_0000;
    let secs: u64 = (ms / 1000) as u64;
    rfc3339_exec(secs)
}

} // verus!
