//! The plain-valued parts of reading a two-line element set: decimal
//! fields, the two-digit year window, and the classification letter. The
//! fields that carry real-valued quantities are read outside the library.

use vstd::prelude::*;

verus! {

pub open spec fn is_digit(c: char) -> bool {
    '0' <= c && c <= '9'
}

pub open spec fn digit_value(c: char) -> nat {
    (c as nat - '0' as nat) as nat
}

/// The number that a run of decimal digits denotes.
pub open spec fn digits_value(s: Seq<char>) -> nat
    decreases s.len(),
{
    if s.len() == 0 {
        0
    } else {
        digits_value(s.drop_last()) * 10 + digit_value(s.last())
    }
}

/// A longer run of digits never denotes a smaller number.
proof fn lemma_digits_value_prefix_le(s: Seq<char>, m: int)
    requires
        0 <= m <= s.len(),
    ensures
        digits_value(s.take(m)) <= digits_value(s),
    decreases s.len() - m,
{
    if m < s.len() {
        lemma_digits_value_prefix_le(s, m + 1);
        assert(s.take(m + 1).drop_last() =~= s.take(m));
        assert(digits_value(s.take(m + 1)) == digits_value(s.take(m)) * 10 + digit_value(
            s.take(m + 1).last(),
        ));
    } else {
        assert(s.take(m) =~= s);
    }
}

/// Read an unsigned decimal number. `None` exactly when the text is empty,
/// holds a non-digit, or denotes a number too large for `u32`.
pub fn parse_decimal(s: &Vec<char>) -> (r: Option<u32>)
    ensures
        r matches Some(v) ==> v == digits_value(s@),
        (r matches Some(v)) <==> (s@.len() > 0 && (forall|j: int|
            0 <= j < s@.len() ==> is_digit(s@[j])) && digits_value(s@) <= u32::MAX),
{
    if s.len() == 0 {
        return None;
    }
    let mut acc: u32 = 0;
    let mut k: usize = 0;
    while k < s.len()
        invariant
            0 < s@.len(),
            k <= s@.len(),
            forall|j: int| 0 <= j < k ==> is_digit(s@[j]),
            acc == digits_value(s@.take(k as int)),
        decreases s@.len() - k,
    {
        let c = s[k];
        if c < '0' || c > '9' {
            return None;
        }
        let d: u32 = (c as u32) - 48;
        let shifted: u32 = match acc.checked_mul(10) {
            Some(x) => x,
            None => {
                proof {
                    overflow_means_too_large(s@, k as int, acc as nat, d as nat);
                }
                return None;
            },
        };
        let next: u32 = match shifted.checked_add(d) {
            Some(x) => x,
            None => {
                proof {
                    overflow_means_too_large(s@, k as int, acc as nat, d as nat);
                }
                return None;
            },
        };
        proof {
            assert(s@.take(k + 1).drop_last() =~= s@.take(k as int));
            assert(s@.take(k + 1).last() == s@[k as int]);
        }
        acc = next;
        k += 1;
    }
    proof {
        assert(s@.take(k as int) =~= s@);
    }
    Some(acc)
}

/// If one more digit no longer fits in `u32`, the whole run denotes a
/// number beyond `u32`.
proof fn overflow_means_too_large(s: Seq<char>, k: int, acc: nat, d: nat)
    requires
        0 <= k < s.len(),
        acc == digits_value(s.take(k)),
        d == digit_value(s[k]),
        acc * 10 + d > u32::MAX,
    ensures
        digits_value(s) > u32::MAX,
{
    assert(s.take(k + 1).drop_last() =~= s.take(k));
    assert(s.take(k + 1).last() == s[k]);
    assert(digits_value(s.take(k + 1)) == acc * 10 + d);
    lemma_digits_value_prefix_le(s, k + 1);
}

/// The four-digit year that a two-digit element-set year denotes: years
/// under 57 fall after 2000, the rest in the 1900s.
pub fn full_year(two_digit: u32) -> (y: u32)
    requires
        two_digit < 100,
    ensures
        y == (if two_digit < 57 {
            2000 + two_digit
        } else {
            1900 + two_digit
        }),
{
    if two_digit < 57 {
        2000 + two_digit
    } else {
        1900 + two_digit
    }
}

/// The B* field of an element set, rewritten from its assumed-decimal-point
/// notation (`±MMMMM±E`) into ordinary scientific notation (`±0.MMMMMe±E`),
/// ready for a real-number reader.
pub fn drag_term_text(field: &Vec<char>) -> (r: Vec<char>)
    requires
        field@.len() >= 5,
        field@[0] == '-' ==> field@.len() >= 6,
    ensures
        field@[0] == '-' ==> r@ == seq!['-', '0', '.'] + field@.subrange(1, 6) + seq!['e']
            + field@.skip(6),
        field@[0] != '-' ==> r@ == seq!['0', '.'] + field@.subrange(0, 5) + seq!['e']
            + field@.skip(5),
{
    let neg = field[0] == '-';
    let mut r: Vec<char> = Vec::new();
    if neg {
        r.push('-');
    }
    r.push('0');
    r.push('.');
    let ghost head = r@;
    let start: usize = if neg { 1 } else { 0 };
    let end: usize = if neg { 6 } else { 5 };
    let mut j: usize = start;
    while j < end
        invariant
            start <= j <= end,
            end <= field@.len(),
            r@ == head + field@.subrange(start as int, j as int),
        decreases end - j,
    {
        r.push(field[j]);
        proof {
            assert(r@ =~= head + field@.subrange(start as int, j + 1));
        }
        j += 1;
    }
    r.push('e');
    let ghost mid = r@;
    let mut k: usize = end;
    while k < field.len()
        invariant
            end <= k <= field@.len(),
            r@ == mid + field@.subrange(end as int, k as int),
        decreases field@.len() - k,
    {
        r.push(field[k]);
        proof {
            assert(r@ =~= mid + field@.subrange(end as int, k + 1));
        }
        k += 1;
    }
    proof {
        assert(field@.subrange(end as int, field@.len() as int) =~= field@.skip(end as int));
        if field@[0] == '-' {
            assert(r@ =~= seq!['-', '0', '.'] + field@.subrange(1, 6) + seq!['e'] + field@.skip(6));
        } else {
            assert(r@ =~= seq!['0', '.'] + field@.subrange(0, 5) + seq!['e'] + field@.skip(5));
        }
    }
    r
}

/// The name under which a classification letter is reported.
pub fn classification_name(c: char) -> (r: &'static str)
    ensures
        r@ == (match c {
            'U' => "Unclassified"@,
            'C' => "Classified"@,
            'A' => "Secret"@,
            _ => "Unknown"@,
        }),
{
    match c {
        'U' => "Unclassified",
        'C' => "Classified",
        'A' => "Secret",
        _ => "Unknown",
    }
}

} // verus!

