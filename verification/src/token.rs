//! Token primitives: literals without regard to ASCII case, runs of blanks
//! and of digits, and decimal numbers.
use vstd::prelude::*;

verus! {

/// A byte with an ASCII capital letter replaced by its small letter.
pub open spec fn fold(b: u8) -> u8 {
    if 0x41 <= b <= 0x5a {
        (b + 0x20) as u8
    } else {
        b
    }
}

/// An ASCII decimal digit.
pub open spec fn is_digit(b: u8) -> bool {
    0x30 <= b <= 0x39
}

/// A space or a horizontal tab.
pub open spec fn is_blank(b: u8) -> bool {
    b == 0x20 || b == 0x09
}

/// `s` and `t` are the same text but for the case of ASCII letters.
pub open spec fn same_ignoring_case(s: Seq<u8>, t: Seq<u8>) -> bool {
    &&& s.len() == t.len()
    &&& forall|k: int|
        #![trigger s[k]]
        #![trigger t[k]]
        0 <= k < s.len() ==> fold(s[k]) == fold(t[k])
}

/// `lit` stands at the head of `s`, ASCII case ignored.
pub open spec fn starts_with_ci(s: Seq<u8>, lit: Seq<u8>) -> bool {
    &&& lit.len() <= s.len()
    &&& forall|k: int|
        #![trigger s[k]]
        #![trigger lit[k]]
        0 <= k < lit.len() ==> fold(s[k]) == fold(lit[k])
}

/// The literal rule: `lit` at the head of `s` consumes its own length.
pub open spec fn literal_rule(s: Seq<u8>, lit: Seq<u8>) -> Option<int> {
    if starts_with_ci(s, lit) {
        Some(lit.len() as int)
    } else {
        None
    }
}

/// The end of the longest run of blanks in `s` that starts at `k`.
pub open spec fn blanks_from(s: Seq<u8>, k: int) -> int
    decreases s.len() - k,
{
    if 0 <= k < s.len() && is_blank(s[k]) {
        blanks_from(s, k + 1)
    } else {
        k
    }
}

/// The end of the longest run of digits in `s` that starts at `k`.
pub open spec fn digits_from(s: Seq<u8>, k: int) -> int
    decreases s.len() - k,
{
    if 0 <= k < s.len() && is_digit(s[k]) {
        digits_from(s, k + 1)
    } else {
        k
    }
}

/// The separator rule: one or more blanks at the head of `s`.
pub open spec fn space_rule(s: Seq<u8>) -> Option<int> {
    if blanks_from(s, 0) > 0 {
        Some(blanks_from(s, 0))
    } else {
        None
    }
}

/// The number that a sequence of digits writes in base ten.
pub open spec fn digits_value(s: Seq<u8>) -> nat
    decreases s.len(),
{
    if s.len() == 0 {
        0
    } else {
        digits_value(s.drop_last()) * 10 + (s.last() - 0x30) as nat
    }
}

/// A non-negative decimal number, held exactly: `mantissa` over ten to the
/// power `scale`. The text `24.78` is `ParsedAmount { mantissa: 2478, scale: 2 }`.
#[derive(Clone, Copy, Debug, PartialEq, Eq, Structural)]
pub struct ParsedAmount {
    /// The digits as written, the dot left out, read as one integer.
    pub mantissa: u64,
    /// How many of those digits stood after the dot.
    pub scale: usize,
}

/// Where the integer part of a decimal at the head of `s` ends.
pub open spec fn whole_end(s: Seq<u8>) -> int {
    digits_from(s, 0)
}

/// A dot follows the integer part.
pub open spec fn has_dot(s: Seq<u8>) -> bool {
    whole_end(s) < s.len() && s[whole_end(s)] == 0x2e
}

/// Where a decimal at the head of `s` ends: after the integer part, or after
/// the dot and the digits behind it.
pub open spec fn decimal_end(s: Seq<u8>) -> int {
    if has_dot(s) {
        digits_from(s, whole_end(s) + 1)
    } else {
        whole_end(s)
    }
}

/// The digits of a decimal at the head of `s`, the dot left out.
pub open spec fn decimal_digits(s: Seq<u8>) -> Seq<u8> {
    if has_dot(s) {
        s.subrange(0, whole_end(s)) + s.subrange(whole_end(s) + 1, decimal_end(s))
    } else {
        s.subrange(0, whole_end(s))
    }
}

/// How many digits of a decimal at the head of `s` stand after the dot.
pub open spec fn decimal_scale(s: Seq<u8>) -> int {
    if has_dot(s) {
        decimal_end(s) - whole_end(s) - 1
    } else {
        0
    }
}

/// The decimal rule: one or more digits, then optionally a dot and any
/// number of digits. It fails where no digit leads, and where the digits
/// read as one integer exceed `u64::MAX`.
pub open spec fn decimal_rule(s: Seq<u8>) -> Option<(int, ParsedAmount)> {
    if whole_end(s) > 0 && digits_value(decimal_digits(s)) <= u64::MAX {
        Some(
            (
                decimal_end(s),
                ParsedAmount {
                    mantissa: digits_value(decimal_digits(s)) as u64,
                    scale: decimal_scale(s) as usize,
                },
            ),
        )
    } else {
        None
    }
}

/// An executable result `r` is what the rule's model `m` says: the same
/// value and the same number of bytes consumed, or no match in both.
pub open spec fn agrees<T>(r: Option<(usize, T)>, m: Option<(int, T)>) -> bool {
    match (r, m) {
        (Some((n, v)), Some((k, w))) => n == k && v == w,
        (None, None) => true,
        _ => false,
    }
}

/// As `agrees`, for a rule that yields no value.
pub open spec fn agrees_len(r: Option<usize>, m: Option<int>) -> bool {
    match (r, m) {
        (Some(n), Some(k)) => n == k,
        (None, None) => true,
        _ => false,
    }
}

/// Folds one byte.
pub fn to_lower(b: u8) -> (r: u8)
    ensures
        r == fold(b),
{
    if 0x41 <= b && b <= 0x5a {
        b + 0x20
    } else {
        b
    }
}

/// Consumes `lit` from the head of `input`, ASCII case ignored.
pub fn literal_ci(input: &[u8], lit: &[u8]) -> (r: Option<usize>)
    ensures
        agrees_len(r, literal_rule(input@, lit@)),
        r matches Some(n) ==> n <= input@.len(),
{
    if lit.len() > input.len() {
        return None;
    }
    let mut k: usize = 0;
    while k < lit.len()
        invariant
            k <= lit.len() <= input.len(),
            forall|j: int| 0 <= j < k ==> fold(#[trigger] input@[j]) == fold(lit@[j]),
        decreases lit.len() - k,
    {
        if to_lower(input[k]) != to_lower(lit[k]) {
            return None;
        }
        k += 1;
    }
    Some(lit.len())
}

/// The number of blanks at the head of `input`, which may be none.
pub fn space0(input: &[u8]) -> (n: usize)
    ensures
        n == blanks_from(input@, 0),
        n <= input@.len(),
{
    let mut k: usize = 0;
    while k < input.len() && (input[k] == 0x20 || input[k] == 0x09)
        invariant
            k <= input.len(),
            blanks_from(input@, 0) == blanks_from(input@, k as int),
        decreases input.len() - k,
    {
        k += 1;
    }
    k
}

/// Consumes one or more blanks from the head of `input`.
pub fn space1(input: &[u8]) -> (r: Option<usize>)
    ensures
        agrees_len(r, space_rule(input@)),
        r matches Some(n) ==> n <= input@.len(),
{
    let n = space0(input);
    if n > 0 {
        Some(n)
    } else {
        None
    }
}

/// A sequence of digits writes no smaller a number when more digits follow.
pub proof fn lemma_digits_value_grows(s: Seq<u8>, more: Seq<u8>)
    ensures
        digits_value(s) <= digits_value(s + more),
    decreases more.len(),
{
    if more.len() == 0 {
        assert(s + more =~= s);
    } else {
        assert((s + more).drop_last() =~= s + more.drop_last());
        lemma_digits_value_grows(s, more.drop_last());
    }
}

/// Reads the run of digits that starts at `from`, continuing the number
/// `acc` that the digits `before` have written so far. `None` where the
/// number leaves `u64`.
fn read_digits(input: &[u8], from: usize, acc: u64, Ghost(before): Ghost<Seq<u8>>) -> (r: Option<
    (usize, u64),
>)
    requires
        from <= input.len(),
        digits_value(before) == acc,
    ensures
        ({
            let end = digits_from(input@, from as int);
            let all = before + input@.subrange(from as int, end);
            match r {
                Some((n, v)) => n == end && from <= n <= input.len() && v == digits_value(all),
                None => digits_value(all) > u64::MAX,
            }
        }),
{
    let mut k: usize = from;
    let mut acc: u64 = acc;
    assert(before + input@.subrange(from as int, from as int) =~= before);
    while k < input.len() && 0x30 <= input[k] && input[k] <= 0x39
        invariant
            from <= k <= input.len(),
            digits_from(input@, from as int) == digits_from(input@, k as int),
            acc == digits_value(before + input@.subrange(from as int, k as int)),
        decreases input.len() - k,
    {
        let d: u64 = (input[k] - 0x30) as u64;
        proof {
            let sofar = before + input@.subrange(from as int, k as int);
            let next = before + input@.subrange(from as int, k + 1);
            let end = digits_from(input@, from as int);
            assert(next.drop_last() =~= sofar);
            assert(next.last() == input@[k as int]);
            assert(digits_value(next) == acc * 10 + d);
            lemma_digits_from_bounds(input@, k + 1);
            assert(before + input@.subrange(from as int, end) =~= next + input@.subrange(
                k + 1,
                end,
            ));
            lemma_digits_value_grows(next, input@.subrange(k + 1, end));
        }
        if acc > (u64::MAX - d) / 10 {
            return None;
        }
        acc = acc * 10 + d;
        k += 1;
    }
    Some((k, acc))
}

/// A run of digits ends at or after its start and within the text.
pub proof fn lemma_digits_from_bounds(s: Seq<u8>, k: int)
    requires
        0 <= k <= s.len(),
    ensures
        k <= digits_from(s, k) <= s.len(),
        forall|j: int| k <= j < digits_from(s, k) ==> is_digit(#[trigger] s[j]),
        digits_from(s, k) < s.len() ==> !is_digit(s[digits_from(s, k)]),
    decreases s.len() - k,
{
    if k < s.len() && is_digit(s[k]) {
        lemma_digits_from_bounds(s, k + 1);
    }
}

/// A run of blanks ends at or after its start and within the text.
pub proof fn lemma_blanks_from_bounds(s: Seq<u8>, k: int)
    requires
        0 <= k <= s.len(),
    ensures
        k <= blanks_from(s, k) <= s.len(),
        forall|j: int| k <= j < blanks_from(s, k) ==> is_blank(#[trigger] s[j]),
        blanks_from(s, k) < s.len() ==> !is_blank(s[blanks_from(s, k)]),
    decreases s.len() - k,
{
    if k < s.len() && is_blank(s[k]) {
        lemma_blanks_from_bounds(s, k + 1);
    }
}

/// Consumes a decimal number from the head of `input`.
pub fn parse_price(input: &[u8]) -> (r: Option<(usize, ParsedAmount)>)
    ensures
        agrees(r, decimal_rule(input@)),
        r matches Some((n, _)) ==> n <= input@.len(),
{
    let ghost s = input@;
    proof {
        lemma_digits_from_bounds(s, 0);
        if has_dot(s) {
            lemma_digits_from_bounds(s, whole_end(s) + 1);
            lemma_digits_value_grows(
                s.subrange(0, whole_end(s)),
                s.subrange(whole_end(s) + 1, decimal_end(s)),
            );
        }
        assert(Seq::<u8>::empty() + s.subrange(0, whole_end(s)) =~= s.subrange(0, whole_end(s)));
    }
    match read_digits(input, 0, 0, Ghost(Seq::empty())) {
        None => None,
        Some((n1, whole)) => {
            if n1 == 0 {
                None
            } else if n1 < input.len() && input[n1] == 0x2e {
                match read_digits(input, n1 + 1, whole, Ghost(s.subrange(0, n1 as int))) {
                    None => None,
                    Some((n2, all)) => Some((n2, ParsedAmount { mantissa: all, scale: n2 - n1 - 1 })),
                }
            } else {
                Some((n1, ParsedAmount { mantissa: whole, scale: 0 }))
            }
        },
    }
}

} // verus!
