//! Byte-level parsing primitives for the backend's option string: separator
//! splitting with an exact functional specification, and the value parsers
//! for decimal numbers, dotted IPv4 addresses, colon-separated MAC addresses
//! and on/off toggles.

use vstd::prelude::*;

verus! {

pub const BYTE_COMMA: u8 = 44;

pub const BYTE_EQUALS: u8 = 61;

pub const BYTE_DOT: u8 = 46;

pub const BYTE_COLON: u8 = 58;

/// The index of the first occurrence of `sep` in `s`, or `s.len()` when
/// there is none.
pub open spec fn find_sep(s: Seq<u8>, sep: u8) -> nat
    decreases s.len(),
{
    if s.len() == 0 {
        0
    } else if s[0] == sep {
        0
    } else {
        1 + find_sep(s.skip(1), sep)
    }
}

/// `s` split at every `sep`: the separators vanish and the pieces stay, so
/// `n` separators yield `n + 1` pieces, empty pieces included.
pub open spec fn split_bytes(s: Seq<u8>, sep: u8) -> Seq<Seq<u8>>
    decreases s.len(),
{
    let i = find_sep(s, sep) as int;
    if i >= s.len() {
        seq![s]
    } else {
        seq![s.take(i)] + split_bytes(s.skip(i + 1), sep)
    }
}

/// The views of a sequence of byte vectors.
pub open spec fn views_of(s: Seq<Vec<u8>>) -> Seq<Seq<u8>> {
    Seq::new(s.len(), |i: int| s[i]@)
}

/// `find_sep` returns `i` exactly when no earlier byte is the separator and
/// position `i` is the separator or the end.
pub proof fn lemma_find_sep_at(t: Seq<u8>, sep: u8, i: int)
    requires
        0 <= i <= t.len(),
        forall|m: int| 0 <= m < i ==> t[m] != sep,
        i < t.len() ==> t[i] == sep,
    ensures
        find_sep(t, sep) == i,
    decreases i,
{
    if i == 0 {
    } else {
        assert(t[0] != sep);
        assert forall|m: int| 0 <= m < i - 1 implies t.skip(1)[m] != sep by {
            assert(t.skip(1)[m] == t[m + 1]);
        }
        assert(i - 1 < t.skip(1).len() ==> t.skip(1)[i - 1] == t[i]);
        lemma_find_sep_at(t.skip(1), sep, i - 1);
    }
}

/// Splits a byte string at every separator.
#[verifier::loop_isolation(false)]
pub fn split_exec(s: &[u8], sep: u8) -> (r: Vec<Vec<u8>>)
    ensures
        views_of(r@) == split_bytes(s@, sep),
{
    let n = s.len();
    let mut parts: Vec<Vec<u8>> = Vec::new();
    let mut pos: usize = 0;
    proof {
        assert(s@.skip(0) =~= s@);
        assert(views_of(parts@) =~= Seq::<Seq<u8>>::empty());
        assert(views_of(parts@) + split_bytes(s@, sep) =~= split_bytes(s@, sep));
    }
    loop
        invariant
            pos <= n,
            n == s@.len(),
            views_of(parts@) + split_bytes(s@.skip(pos as int), sep) == split_bytes(s@, sep),
        decreases n + 1 - pos,
    {
        let mut j = pos;
        while j < n && s[j] != sep
            invariant
                pos <= j <= n,
                forall|m: int| pos <= m < j ==> s@[m] != sep,
            decreases n - j,
        {
            j = j + 1;
        }
        proof {
            assert forall|m: int| 0 <= m < j - pos implies s@.skip(pos as int)[m] != sep by {
                assert(s@.skip(pos as int)[m] == s@[pos + m]);
            }
            let ghost jj = j as int;
            assert((j - pos) < s@.skip(pos as int).len() ==> s@.skip(pos as int)[j - pos]
                == s@[jj]);
            lemma_find_sep_at(s@.skip(pos as int), sep, j - pos);
        }
        let mut part: Vec<u8> = Vec::new();
        let mut m = pos;
        while m < j
            invariant
                pos <= m <= j <= n,
                n == s@.len(),
                part@ == s@.subrange(pos as int, m as int),
            decreases j - m,
        {
            let b = s[m];
            part.push(b);
            assert(part@ =~= s@.subrange(pos as int, m + 1));
            m = m + 1;
        }
        assert(part@ =~= s@.skip(pos as int).take(j - pos));
        parts.push(part);
        if j == n {
            proof {
                assert(part@ =~= s@.skip(pos as int));
                assert(views_of(parts@) =~= views_of(parts@.drop_last()) + seq![s@.skip(
                    pos as int,
                )]);
                assert(views_of(parts@) =~= split_bytes(s@, sep));
            }
            return parts;
        }
        proof {
            assert(s@.skip(pos as int).skip(j - pos + 1) =~= s@.skip(j + 1));
            assert(views_of(parts@) =~= views_of(parts@.drop_last()) + seq![s@.skip(
                pos as int,
            ).take(j - pos)]);
            assert(views_of(parts@) + split_bytes(s@.skip(j + 1), sep) =~= split_bytes(s@, sep));
        }
        pos = j + 1;
    }
}

/// Whether `b` is an ASCII decimal digit.
pub open spec fn is_digit(b: u8) -> bool {
    48 <= b <= 57
}

/// Whether every byte of `s` is a decimal digit.
pub open spec fn all_digits(s: Seq<u8>) -> bool {
    forall|i: int| 0 <= i < s.len() ==> is_digit(#[trigger] s[i])
}

/// The decimal value of a digit string.
pub open spec fn dec_val(s: Seq<u8>) -> int
    decreases s.len(),
{
    if s.len() == 0 {
        0
    } else {
        dec_val(s.drop_last()) * 10 + (s.last() - 48)
    }
}

/// A digit string's value is non-negative.
pub proof fn lemma_dec_val_nonneg(s: Seq<u8>)
    requires
        all_digits(s),
    ensures
        dec_val(s) >= 0,
    decreases s.len(),
{
    if s.len() > 0 {
        assert(all_digits(s.drop_last()));
        lemma_dec_val_nonneg(s.drop_last());
    }
}

/// Every prefix of a digit string has a value no larger than the whole.
pub proof fn lemma_dec_val_prefix_le(s: Seq<u8>, i: int)
    requires
        all_digits(s),
        0 <= i <= s.len(),
    ensures
        dec_val(s.take(i)) <= dec_val(s),
    decreases s.len() - i,
{
    if i < s.len() {
        lemma_dec_val_prefix_le(s, i + 1);
        assert(s.take(i + 1).drop_last() =~= s.take(i));
        assert(all_digits(s.take(i)));
        lemma_dec_val_nonneg(s.take(i));
        assert(dec_val(s.take(i + 1)) == dec_val(s.take(i)) * 10 + (s.take(i + 1).last() - 48));
    } else {
        assert(s.take(i) =~= s);
    }
}

/// What a decimal field parses to: its value, provided the field is
/// non-empty, all digits, and fits the word.
pub open spec fn u64_of_dec(s: Seq<u8>) -> Option<u64> {
    if s.len() > 0 && all_digits(s) && dec_val(s) <= u64::MAX {
        Some(dec_val(s) as u64)
    } else {
        None
    }
}

/// Parses a decimal u64 field.
#[verifier::loop_isolation(false)]
pub fn parse_u64_dec(s: &Vec<u8>) -> (r: Option<u64>)
    ensures
        r == u64_of_dec(s@),
{
    let n = s.len();
    if n == 0 {
        return None;
    }
    let mut acc: u64 = 0;
    let mut i: usize = 0;
    while i < n
        invariant
            0 <= i <= n,
            n == s@.len(),
            all_digits(s@.take(i as int)),
            acc == dec_val(s@.take(i as int)),
        decreases n - i,
    {
        let b = s[i];
        if b < 48 || b > 57 {
            assert(!all_digits(s@));
            return None;
        }
        let d = (b - 48) as u64;
        if acc > (u64::MAX - d) / 10 {
            proof {
                assert(s@.take(i + 1).drop_last() =~= s@.take(i as int));
                assert(all_digits(s@.take(i + 1)));
                vstd::arithmetic::div_mod::lemma_fundamental_div_mod(
                    (u64::MAX - d) as int,
                    10int,
                );
                assert(dec_val(s@.take(i + 1)) > u64::MAX);
                if all_digits(s@) {
                    lemma_dec_val_prefix_le(s@, i + 1);
                }
            }
            return None;
        }
        proof {
            assert(s@.take(i + 1).drop_last() =~= s@.take(i as int));
            vstd::arithmetic::div_mod::lemma_fundamental_div_mod((u64::MAX - d) as int, 10int);
        }
        acc = acc * 10 + d;
        i = i + 1;
    }
    assert(s@.take(n as int) =~= s@);
    Some(acc)
}

/// What an IPv4 field parses to: four dot-separated decimal octets, each of
/// one to three digits without a redundant leading zero, each at most 255.
pub open spec fn octet_ok(p: Seq<u8>) -> bool {
    &&& 1 <= p.len() <= 3
    &&& all_digits(p)
    &&& (p[0] == 48 ==> p.len() == 1)
    &&& dec_val(p) <= 255
}

/// The octets of a dotted-quad IPv4 field, when well formed.
pub open spec fn ipv4_of(s: Seq<u8>) -> Option<Seq<u8>> {
    let parts = split_bytes(s, BYTE_DOT);
    if parts.len() == 4 && octet_ok(parts[0]) && octet_ok(parts[1]) && octet_ok(parts[2])
        && octet_ok(parts[3]) {
        Some(
            seq![
                dec_val(parts[0]) as u8,
                dec_val(parts[1]) as u8,
                dec_val(parts[2]) as u8,
                dec_val(parts[3]) as u8,
            ],
        )
    } else {
        None
    }
}

/// Parses one octet of a dotted quad.
fn parse_octet(p: &Vec<u8>) -> (r: Option<u8>)
    ensures
        r is Some <==> octet_ok(p@),
        r matches Some(v) ==> v == dec_val(p@),
{
    let n = p.len();
    if n < 1 || n > 3 {
        return None;
    }
    if p[0] == 48 && n != 1 {
        return None;
    }
    match parse_u64_dec(p) {
        Some(v) => {
            proof {
                lemma_dec_val_nonneg(p@);
            }
            if v <= 255 {
                Some(v as u8)
            } else {
                None
            }
        },
        None => None,
    }
}

/// Parses a dotted-quad IPv4 field.
pub fn parse_ipv4(s: &Vec<u8>) -> (r: Option<[u8; 4]>)
    ensures
        r is Some <==> ipv4_of(s@) is Some,
        r matches Some(o) ==> Some(o@) == ipv4_of(s@),
{
    let parts = split_exec(s.as_slice(), BYTE_DOT);
    if parts.len() != 4 {
        proof {
            assert(views_of(parts@).len() == parts@.len());
        }
        return None;
    }
    proof {
        assert(forall|i: int| 0 <= i < 4 ==> views_of(parts@)[i] == #[trigger] parts@[i]@);
    }
    let a = parse_octet(&parts[0]);
    let b = parse_octet(&parts[1]);
    let c = parse_octet(&parts[2]);
    let d = parse_octet(&parts[3]);
    match (a, b, c, d) {
        (Some(a), Some(b), Some(c), Some(d)) => {
            let o: [u8; 4] = [a, b, c, d];
            assert(o@ =~= ipv4_of(s@)->Some_0);
            Some(o)
        },
        _ => None,
    }
}

/// The value of an ASCII hex digit, or 16 for any other byte.
pub open spec fn hex_val(b: u8) -> int {
    if 48 <= b <= 57 {
        b - 48
    } else if 97 <= b <= 102 {
        b - 97 + 10
    } else if 65 <= b <= 70 {
        b - 65 + 10
    } else {
        16
    }
}

/// What a MAC field parses to: six colon-separated pairs of hex digits, as
/// in `12:34:56:ab:cd:ef`, positionally.
pub open spec fn mac_ok(s: Seq<u8>) -> bool {
    &&& s.len() == 17
    &&& (forall|g: int|
        0 <= g < 6 ==> hex_val(#[trigger] s[3 * g]) < 16 && hex_val(s[3 * g + 1]) < 16)
    &&& (forall|g: int| 0 <= g < 5 ==> #[trigger] s[3 * g + 2] == BYTE_COLON)
}

/// The bytes of a well-formed MAC field.
pub open spec fn mac_of(s: Seq<u8>) -> Seq<u8> {
    Seq::new(6, |g: int| (hex_val(s[3 * g]) * 16 + hex_val(s[3 * g + 1])) as u8)
}

/// Parses one hex digit.
fn parse_hex_digit(b: u8) -> (r: Option<u8>)
    ensures
        r is Some <==> hex_val(b) < 16,
        r matches Some(v) ==> v == hex_val(b),
{
    if 48 <= b && b <= 57 {
        Some(b - 48)
    } else if 97 <= b && b <= 102 {
        Some(b - 97 + 10)
    } else if 65 <= b && b <= 70 {
        Some(b - 65 + 10)
    } else {
        None
    }
}

/// Parses a colon-separated MAC field.
#[verifier::loop_isolation(false)]
pub fn parse_mac(s: &Vec<u8>) -> (r: Option<[u8; 6]>)
    ensures
        r is Some <==> mac_ok(s@),
        r matches Some(o) ==> o@ == mac_of(s@),
{
    if s.len() != 17 {
        return None;
    }
    let mut out: [u8; 6] = [0, 0, 0, 0, 0, 0];
    let mut g: usize = 0;
    while g < 6
        invariant
            0 <= g <= 6,
            s@.len() == 17,
            forall|m: int|
                0 <= m < g ==> hex_val(#[trigger] s@[3 * m]) < 16 && hex_val(s@[3 * m + 1]) < 16,
            forall|m: int| 0 <= m < g && m < 5 ==> #[trigger] s@[3 * m + 2] == BYTE_COLON,
            forall|m: int|
                0 <= m < g ==> #[trigger] out@[m] == (hex_val(s@[3 * m]) * 16 + hex_val(
                    s@[3 * m + 1],
                )) as u8,
        decreases 6 - g,
    {
        let hi = match parse_hex_digit(s[3 * g]) {
            Some(v) => v,
            None => {
                return None;
            },
        };
        let lo = match parse_hex_digit(s[3 * g + 1]) {
            Some(v) => v,
            None => {
                return None;
            },
        };
        if g < 5 {
            if s[3 * g + 2] != BYTE_COLON {
                return None;
            }
        }
        out[g] = hi * 16 + lo;
        g = g + 1;
    }
    assert(out@ =~= mac_of(s@));
    Some(out)
}

/// What a toggle field parses to: `on` and `true` mean enabled, `off` and
/// `false` disabled.
pub open spec fn toggle_of(s: Seq<u8>) -> Option<bool> {
    if s == seq![111u8, 110u8] || s == seq![116u8, 114u8, 117u8, 101u8] {
        Some(true)
    } else if s == seq![111u8, 102u8, 102u8] || s == seq![102u8, 97u8, 108u8, 115u8, 101u8] {
        Some(false)
    } else {
        None
    }
}

/// Parses a toggle field (`on`, `off`, `true`, `false`).
pub fn parse_toggle(s: &Vec<u8>) -> (r: Option<bool>)
    ensures
        r == toggle_of(s@),
{
    // "on"
    if s.len() == 2 && s[0] == 111 && s[1] == 110 {
        assert(s@ =~= seq![111u8, 110u8]);
        return Some(true);
    }
    // "true"
    if s.len() == 4 && s[0] == 116 && s[1] == 114 && s[2] == 117 && s[3] == 101 {
        assert(s@ =~= seq![116u8, 114u8, 117u8, 101u8]);
        return Some(true);
    }
    // "off"
    if s.len() == 3 && s[0] == 111 && s[1] == 102 && s[2] == 102 {
        assert(s@ =~= seq![111u8, 102u8, 102u8]);
        return Some(false);
    }
    // "false"
    if s.len() == 5 && s[0] == 102 && s[1] == 97 && s[2] == 108 && s[3] == 115 && s[4] == 101 {
        assert(s@ =~= seq![102u8, 97u8, 108u8, 115u8, 101u8]);
        return Some(false);
    }
    proof {
        if s@ == seq![111u8, 110u8] {
            assert(s@.len() == 2 && s@[0] == 111 && s@[1] == 110);
        }
        if s@ == seq![116u8, 114u8, 117u8, 101u8] {
            assert(s@.len() == 4 && s@[0] == 116);
        }
        if s@ == seq![111u8, 102u8, 102u8] {
            assert(s@.len() == 3 && s@[0] == 111);
        }
        if s@ == seq![102u8, 97u8, 108u8, 115u8, 101u8] {
            assert(s@.len() == 5 && s@[0] == 102);
        }
    }
    None
}

} // verus!
