//! Number text: fixed-width lowercase hexadecimal, its parsing, and decimal.
use vstd::prelude::*;
use vstd::string::*;

verus! {

/// 16 to the power `n`.
pub open spec fn pow16(n: nat) -> nat
    decreases n,
{
    if n == 0 {
        1
    } else {
        16 * pow16((n - 1) as nat)
    }
}

/// The lowercase hexadecimal digit for a value below 16.
pub open spec fn hex_digit(d: nat) -> char {
    if d == 0 { '0' }
    else if d == 1 { '1' }
    else if d == 2 { '2' }
    else if d == 3 { '3' }
    else if d == 4 { '4' }
    else if d == 5 { '5' }
    else if d == 6 { '6' }
    else if d == 7 { '7' }
    else if d == 8 { '8' }
    else if d == 9 { '9' }
    else if d == 10 { 'a' }
    else if d == 11 { 'b' }
    else if d == 12 { 'c' }
    else if d == 13 { 'd' }
    else if d == 14 { 'e' }
    else { 'f' }
}

/// Whether `c` is a lowercase hexadecimal digit.
pub open spec fn is_hex_char(c: char) -> bool {
    (48 <= c as u32 && c as u32 <= 57) || (97 <= c as u32 && c as u32 <= 102)
}

/// The value of a lowercase hexadecimal digit.
pub open spec fn digit_value(c: char) -> nat {
    if c as u32 <= 57 {
        (c as u32 - 48) as nat
    } else {
        (c as u32 - 87) as nat
    }
}

/// Whether every character of `s` is a lowercase hexadecimal digit.
pub open spec fn all_hex(s: Seq<char>) -> bool {
    forall|i: int| 0 <= i < s.len() ==> is_hex_char(#[trigger] s[i])
}

/// `v` written with exactly `width` lowercase hexadecimal digits, most significant first
/// (digits above `width` are dropped).
pub open spec fn hex_of(v: nat, width: nat) -> Seq<char>
    decreases width,
{
    if width == 0 {
        Seq::empty()
    } else {
        hex_of(v / 16, (width - 1) as nat).push(hex_digit(v % 16))
    }
}

/// The number that a string of hexadecimal digits denotes.
pub open spec fn hex_value(s: Seq<char>) -> nat
    decreases s.len(),
{
    if s.len() == 0 {
        0
    } else {
        hex_value(s.drop_last()) * 16 + digit_value(s.last())
    }
}

pub proof fn lemma_digit_round_trip(d: nat)
    requires
        d < 16,
    ensures
        is_hex_char(hex_digit(d)),
        digit_value(hex_digit(d)) == d,
{
}

pub proof fn lemma_hex_of_shape(v: nat, width: nat)
    ensures
        hex_of(v, width).len() == width,
        all_hex(hex_of(v, width)),
    decreases width,
{
    if width > 0 {
        lemma_hex_of_shape(v / 16, (width - 1) as nat);
        lemma_digit_round_trip(v % 16);
        let s = hex_of(v, width);
        let p = hex_of(v / 16, (width - 1) as nat);
        assert forall|i: int| 0 <= i < s.len() implies is_hex_char(#[trigger] s[i]) by {
            if i < p.len() {
                assert(s[i] == p[i]);
            }
        }
    }
}

/// Reading back a number written in enough digits gives the number.
pub proof fn lemma_hex_round_trip(v: nat, width: nat)
    requires
        v < pow16(width),
    ensures
        hex_value(hex_of(v, width)) == v,
    decreases width,
{
    if width > 0 {
        lemma_hex_round_trip(v / 16, (width - 1) as nat);
        lemma_digit_round_trip(v % 16);
        let s = hex_of(v, width);
        assert(s.drop_last() =~= hex_of(v / 16, (width - 1) as nat));
    }
}

pub proof fn lemma_hex_value_bound(s: Seq<char>)
    requires
        all_hex(s),
    ensures
        hex_value(s) < pow16(s.len()),
    decreases s.len(),
{
    if s.len() > 0 {
        let p = s.drop_last();
        assert(all_hex(p)) by {
            assert forall|i: int| 0 <= i < p.len() implies is_hex_char(#[trigger] p[i]) by {
                assert(p[i] == s[i]);
            }
        }
        lemma_hex_value_bound(p);
        assert(is_hex_char(s[s.len() - 1]));
    }
}

/// Relies on String::push: the character is appended at the end.
#[verifier::external_body]
pub(crate) fn push_char(s: &mut String, c: char)
    ensures
        final(s)@ == old(s)@.push(c),
{
    s.push(c)
}

/// The lowercase hexadecimal digit for `d`.
pub fn digit_char(d: u8) -> (c: char)
    requires
        d < 16,
    ensures
        c == hex_digit(d as nat),
{
    if d == 0 { '0' }
    else if d == 1 { '1' }
    else if d == 2 { '2' }
    else if d == 3 { '3' }
    else if d == 4 { '4' }
    else if d == 5 { '5' }
    else if d == 6 { '6' }
    else if d == 7 { '7' }
    else if d == 8 { '8' }
    else if d == 9 { '9' }
    else if d == 10 { 'a' }
    else if d == 11 { 'b' }
    else if d == 12 { 'c' }
    else if d == 13 { 'd' }
    else if d == 14 { 'e' }
    else { 'f' }
}

/// The value of `c` when it is a lowercase hexadecimal digit.
pub fn char_digit(c: char) -> (r: Option<u8>)
    ensures
        r == (if is_hex_char(c) { Some(digit_value(c) as u8) } else { None::<u8> }),
        r is Some ==> r->0 < 16,
{
    let n = c as u32;
    if 48 <= n && n <= 57 {
        Some((n - 48) as u8)
    } else if 97 <= n && n <= 102 {
        Some((n - 87) as u8)
    } else {
        None
    }
}

/// Appends `v` written with exactly `width` lowercase hexadecimal digits.
pub fn push_hex(out: &mut String, v: u128, width: usize)
    requires
        width <= 32,
    ensures
        final(out)@ == old(out)@ + hex_of(v as nat, width as nat),
{
    let mut rev: Vec<char> = Vec::new();
    let mut cur: u128 = v;
    let mut k: usize = 0;
    let ghost mut tail: Seq<char> = Seq::empty();
    while k < width
        invariant
            k <= width,
            tail.len() == k,
            rev@.len() == k,
            forall|i: int| 0 <= i < k ==> tail[i] == #[trigger] rev@[k - 1 - i],
            hex_of(v as nat, width as nat) == hex_of(cur as nat, (width - k) as nat) + tail,
        decreases width - k,
    {
        let d = (cur % 16) as u8;
        let c = digit_char(d);
        proof {
            let w = (width - k) as nat;
            assert(hex_of(cur as nat, w) == hex_of(cur as nat / 16, (w - 1) as nat).push(c));
            assert(hex_of(cur as nat, w) + tail =~= hex_of(cur as nat / 16, (w - 1) as nat) + (
            seq![c] + tail));
        }
        let ghost old_tail = tail;
        proof {
            tail = seq![c] + old_tail;
        }
        rev.push(c);
        proof {
            assert forall|i: int| 0 <= i < k + 1 implies tail[i] == #[trigger] rev@[k - i] by {
                if i > 0 {
                    assert(tail[i] == old_tail[i - 1]);
                    assert(old_tail[i - 1] == rev@[k - 1 - (i - 1)]);
                }
            }
        }
        cur = cur / 16;
        k = k + 1;
    }
    assert(hex_of(v as nat, width as nat) =~= tail);
    let ghost start = out@;
    let mut j: usize = 0;
    while j < width
        invariant
            j <= width,
            rev@.len() == width,
            tail.len() == width,
            forall|i: int| 0 <= i < width ==> tail[i] == #[trigger] rev@[width - 1 - i],
            out@ == start + tail.take(j as int),
        decreases width - j,
    {
        let c = rev[width - 1 - j];
        push_char(out, c);
        proof {
            assert(tail[j as int] == rev@[width - 1 - j]);
            assert(tail.take(j as int).push(c) =~= tail.take(j + 1));
        }
        j = j + 1;
    }
    assert(tail.take(width as int) =~= tail);
}

/// The number written in the hexadecimal digits `s[start..end]`, when they are all
/// lowercase hexadecimal digits.
pub fn parse_hex(s: &str, start: usize, end: usize) -> (r: Option<u128>)
    requires
        start <= end <= s@.len(),
        end - start <= 32,
    ensures
        r == (if all_hex(s@.subrange(start as int, end as int)) {
            Some(hex_value(s@.subrange(start as int, end as int)) as u128)
        } else {
            None::<u128>
        }),
{
    let ghost full = s@.subrange(start as int, end as int);
    let mut acc: u128 = 0;
    let mut i: usize = start;
    while i < end
        invariant
            start <= i <= end,
            end <= s@.len(),
            end - start <= 32,
            full == s@.subrange(start as int, end as int),
            all_hex(full.take(i - start)),
            acc as nat == hex_value(full.take(i - start)),
            acc < pow16((i - start) as nat),
        decreases end - i,
    {
        let c = s.get_char(i);
        let ghost pre = full.take(i - start);
        let ghost next = full.take(i - start + 1);
        assert(next.drop_last() =~= pre);
        assert(next.last() == c);
        match char_digit(c) {
            None => {
                assert(!all_hex(full)) by {
                    assert(full[i - start] == c);
                }
                return None;
            },
            Some(d) => {
                proof {
                    assert(pow16((i - start + 1) as nat) == 16 * pow16((i - start) as nat));
                    assert(pow16((i - start + 1) as nat) <= pow16(32)) by {
                        lemma_pow16_mono((i - start + 1) as nat, 32);
                    }
                    lemma_pow16_32();
                    assert(all_hex(next)) by {
                        assert forall|j: int| 0 <= j < next.len() implies is_hex_char(
                            #[trigger] next[j],
                        ) by {
                            if j < pre.len() {
                                assert(next[j] == pre[j]);
                            }
                        }
                    }
                }
                acc = acc * 16 + d as u128;
                i = i + 1;
            },
        }
    }
    assert(full.take(end - start) =~= full);
    Some(acc)
}

pub proof fn lemma_pow16_32()
    ensures
        pow16(32) == 0x1_0000_0000_0000_0000_0000_0000_0000_0000,
{
    reveal_with_fuel(pow16, 33);
}

pub proof fn lemma_pow16_mono(a: nat, b: nat)
    requires
        a <= b,
    ensures
        pow16(a) <= pow16(b),
    decreases b,
{
    if a < b {
        lemma_pow16_mono(a, (b - 1) as nat);
    }
}

/// The decimal digits of `n`, most significant first, without leading zeros.
pub open spec fn decimal_digits(n: nat) -> Seq<char>
    decreases n,
{
    if n < 10 {
        seq![hex_digit(n)]
    } else {
        decimal_digits(n / 10).push(hex_digit(n % 10))
    }
}

/// `n` in decimal, with a leading `-` when negative.
pub open spec fn decimal_text(n: int) -> Seq<char> {
    if n < 0 {
        seq!['-'] + decimal_digits((-n) as nat)
    } else {
        decimal_digits(n as nat)
    }
}

/// Appends `n` written in decimal.
pub fn push_decimal(out: &mut String, n: i64)
    ensures
        final(out)@ == old(out)@ + decimal_text(n as int),
{
    let ghost start = out@;
    let m: u64 = if n < 0 {
        push_char(out, '-');
        (0i128 - n as i128) as u64
    } else {
        n as u64
    };
    let ghost mid = out@;
    let mut rev: Vec<char> = Vec::new();
    let mut cur: u64 = m;
    let ghost mut tail: Seq<char> = Seq::empty();
    while cur >= 10
        invariant
            tail.len() == rev@.len(),
            forall|i: int| 0 <= i < tail.len() ==> tail[i] == #[trigger] rev@[tail.len() - 1 - i],
            decimal_digits(m as nat) == decimal_digits(cur as nat) + tail,
        decreases cur,
    {
        let c = digit_char((cur % 10) as u8);
        let ghost old_tail = tail;
        proof {
            assert(decimal_digits(cur as nat) == decimal_digits(cur as nat / 10).push(c));
            assert(decimal_digits(cur as nat) + old_tail =~= decimal_digits(cur as nat / 10) + (seq![c] + old_tail));
            tail = seq![c] + old_tail;
        }
        let ghost old_rev = rev@;
        rev.push(c);
        proof {
            assert forall|i: int| 0 <= i < tail.len() implies tail[i] == #[trigger] rev@[tail.len() - 1 - i] by {
                if i > 0 {
                    assert(tail[i] == old_tail[i - 1]);
                    assert(old_tail[i - 1] == old_rev[old_tail.len() - 1 - (i - 1)]);
                }
            }
        }
        cur = cur / 10;
    }
    let c = digit_char(cur as u8);
    let ghost old_tail = tail;
    proof {
        assert(decimal_digits(cur as nat) == seq![c]);
        tail = seq![c] + old_tail;
        assert(decimal_digits(m as nat) =~= tail);
    }
    let ghost old_rev = rev@;
    rev.push(c);
    proof {
        assert forall|i: int| 0 <= i < tail.len() implies tail[i] == #[trigger] rev@[tail.len() - 1 - i] by {
            if i > 0 {
                assert(tail[i] == old_tail[i - 1]);
                assert(old_tail[i - 1] == old_rev[old_tail.len() - 1 - (i - 1)]);
            }
        }
    }
    let width = rev.len();
    let mut j: usize = 0;
    while j < width
        invariant
            j <= width,
            rev@.len() == width,
            tail.len() == width,
            forall|i: int| 0 <= i < width ==> tail[i] == #[trigger] rev@[width - 1 - i],
            out@ == mid + tail.take(j as int),
        decreases width - j,
    {
        let c = rev[width - 1 - j];
        push_char(out, c);
        proof {
            assert(tail[j as int] == rev@[width - 1 - j]);
            assert(tail.take(j as int).push(c) =~= tail.take(j + 1));
        }
        j = j + 1;
    }
    proof {
        assert(tail.take(width as int) =~= tail);
        if n < 0 {
            assert(mid == start.push('-'));
            assert(m as int == -(n as int));
            assert(out@ =~= start + decimal_text(n as int));
        } else {
            assert(out@ =~= start + decimal_text(n as int));
        }
    }
}

} // verus!
