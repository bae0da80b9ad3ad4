//! Text taken character by character: searching and replacing.
use vstd::prelude::*;
use vstd::string::*;

verus! {

/// `String::push` of std: appends one character to the end of the text.
pub assume_specification[ String::push ](s: &mut String, ch: char)
    ensures
        final(s)@ == old(s)@.push(ch),
;

/// The view of a text that may be missing.
pub open spec fn text_view(r: Option<String>) -> Option<Seq<char>> {
    match r {
        Some(s) => Some(s@),
        None => None,
    }
}

/// The characters of `s`, in order.
pub fn chars_of(s: &str) -> (v: Vec<char>)
    ensures
        v@ == s@,
{
    let mut v: Vec<char> = Vec::new();
    for c in it: s.chars()
        invariant
            v.len() == it.index(),
            forall|i: int| 0 <= i < v.len() ==> v@[i] == it.seq()[i],
            it.seq() == s@,
    {
        v.push(c);
    }
    assert(v@ =~= s@);
    v
}

/// `pat` stands in `s` at `at`.
pub open spec fn occurs_at(s: Seq<char>, pat: Seq<char>, at: int) -> bool {
    &&& 0 <= at
    &&& at + pat.len() <= s.len()
    &&& s.subrange(at, at + pat.len()) == pat
}

/// `s` with `to` before, between and after its characters: what replacing
/// the empty text gives.
pub open spec fn interleaved(s: Seq<char>, to: Seq<char>) -> Seq<char>
    decreases s.len(),
{
    if s.len() == 0 {
        to
    } else {
        to + seq![s[0]] + interleaved(s.skip(1), to)
    }
}

/// `s` with every occurrence of the non-empty `from` replaced by `to`. The
/// occurrences are found from the left and do not overlap.
pub open spec fn replaced_nonempty(s: Seq<char>, from: Seq<char>, to: Seq<char>) -> Seq<char>
    decreases s.len(),
{
    if from.len() == 0 || s.len() == 0 {
        s
    } else if occurs_at(s, from, 0) {
        to + replaced_nonempty(s.skip(from.len() as int), from, to)
    } else {
        seq![s[0]] + replaced_nonempty(s.skip(1), from, to)
    }
}

/// `s` with every occurrence of `from` replaced by `to`.
pub open spec fn replaced(s: Seq<char>, from: Seq<char>, to: Seq<char>) -> Seq<char> {
    if from.len() == 0 {
        interleaved(s, to)
    } else {
        replaced_nonempty(s, from, to)
    }
}

/// `s` with the first occurrence of the non-empty `from`, if there is one,
/// replaced by `to`.
pub open spec fn replaced_first(s: Seq<char>, from: Seq<char>, to: Seq<char>) -> Seq<char>
    decreases s.len(),
{
    if from.len() == 0 {
        to + s
    } else if s.len() == 0 {
        s
    } else if occurs_at(s, from, 0) {
        to + s.skip(from.len() as int)
    } else {
        seq![s[0]] + replaced_first(s.skip(1), from, to)
    }
}

/// `s` without the run of `c` at its head.
pub open spec fn without_leading(s: Seq<char>, c: char) -> Seq<char>
    decreases s.len(),
{
    if s.len() > 0 && s[0] == c {
        without_leading(s.skip(1), c)
    } else {
        s
    }
}

/// Whether `pat` stands in `v` at `at`.
fn matches_at(v: &Vec<char>, pat: &Vec<char>, at: usize) -> (r: bool)
    requires
        at <= v.len(),
    ensures
        r == occurs_at(v@, pat@, at as int),
{
    if pat.len() > v.len() - at {
        return false;
    }
    let mut k: usize = 0;
    while k < pat.len()
        invariant
            k <= pat.len(),
            at + pat.len() <= v.len(),
            forall|j: int| 0 <= j < k ==> v@[at + j] == pat@[j],
        decreases pat.len() - k,
    {
        if v[at + k] != pat[k] {
            assert(v@.subrange(at as int, at + pat.len())[k as int] != pat@[k as int]);
            return false;
        }
        k += 1;
    }
    assert(v@.subrange(at as int, at + pat.len()) =~= pat@);
    true
}

/// Appends the characters of `v` from `from` on to `out`.
fn push_rest(out: &mut String, v: &Vec<char>, from: usize)
    requires
        from <= v.len(),
    ensures
        final(out)@ == old(out)@ + v@.skip(from as int),
{
    let mut i: usize = from;
    while i < v.len()
        invariant
            from <= i <= v.len(),
            out@ == old(out)@ + v@.subrange(from as int, i as int),
        decreases v.len() - i,
    {
        out.push(v[i]);
        assert(old(out)@ + v@.subrange(from as int, i + 1) =~= (old(out)@ + v@.subrange(
            from as int,
            i as int,
        )).push(v@[i as int]));
        i += 1;
    }
    assert(v@.subrange(from as int, v.len() as int) =~= v@.skip(from as int));
}

/// `text` with every occurrence of `from` replaced by `to`.
pub fn replace_all(text: &str, from: &str, to: &str) -> (r: String)
    ensures
        r@ == replaced(text@, from@, to@),
{
    let v = chars_of(text);
    let pat = chars_of(from);
    let mut out = String::new();
    let mut i: usize = 0;
    assert(v@.skip(0) =~= v@);
    assert(out@ + interleaved(v@, to@) =~= interleaved(v@, to@));
    assert(out@ + replaced_nonempty(v@, pat@, to@) =~= replaced_nonempty(v@, pat@, to@));
    if pat.len() == 0 {
        while i < v.len()
            invariant
                i <= v.len(),
                pat@ == from@,
                v@ == text@,
                out@ + interleaved(v@.skip(i as int), to@) == interleaved(v@, to@),
            decreases v.len() - i,
        {
            let ghost before = out@;
            let ghost s = v@.skip(i as int);
            out.append(to);
            out.push(v[i]);
            assert(s.skip(1) =~= v@.skip(i + 1));
            assert(out@ + interleaved(s.skip(1), to@) =~= before + interleaved(s, to@));
            i += 1;
        }
        out.append(to);
        return out;
    }
    while i < v.len()
        invariant
            i <= v.len(),
            pat@ == from@,
            pat@.len() > 0,
            v@ == text@,
            out@ + replaced_nonempty(v@.skip(i as int), pat@, to@) == replaced_nonempty(
                v@,
                pat@,
                to@,
            ),
        decreases v.len() - i,
    {
        let ghost before = out@;
        let ghost s = v@.skip(i as int);
        assert(occurs_at(s, pat@, 0) == occurs_at(v@, pat@, i as int)) by {
            if i + pat.len() <= v.len() {
                assert(s.subrange(0, pat@.len() as int) =~= v@.subrange(i as int, i + pat.len()));
            }
        }
        if matches_at(&v, &pat, i) {
            out.append(to);
            assert(s.skip(pat@.len() as int) =~= v@.skip(i + pat.len()));
            assert(out@ + replaced_nonempty(s.skip(pat@.len() as int), pat@, to@) =~= before
                + replaced_nonempty(s, pat@, to@));
            i += pat.len();
        } else {
            out.push(v[i]);
            assert(s.skip(1) =~= v@.skip(i + 1));
            assert(out@ + replaced_nonempty(s.skip(1), pat@, to@) =~= before + replaced_nonempty(
                s,
                pat@,
                to@,
            ));
            i += 1;
        }
    }
    out
}

/// `text` with the first occurrence of `from`, if there is one, replaced by
/// `to`.
pub fn replace_first(text: &str, from: &str, to: &str) -> (r: String)
    ensures
        r@ == replaced_first(text@, from@, to@),
{
    let v = chars_of(text);
    let pat = chars_of(from);
    let mut out = String::new();
    let mut i: usize = 0;
    assert(v@.skip(0) =~= v@);
    assert(out@ + replaced_first(v@, pat@, to@) =~= replaced_first(v@, pat@, to@));
    while i < v.len()
        invariant
            i <= v.len(),
            pat@ == from@,
            v@ == text@,
            out@ + replaced_first(v@.skip(i as int), pat@, to@) == replaced_first(v@, pat@, to@),
        decreases v.len() - i,
    {
        let ghost before = out@;
        let ghost s = v@.skip(i as int);
        assert(occurs_at(s, pat@, 0) == occurs_at(v@, pat@, i as int)) by {
            if i + pat.len() <= v.len() {
                assert(s.subrange(0, pat@.len() as int) =~= v@.subrange(i as int, i + pat.len()));
            }
        }
        if matches_at(&v, &pat, i) {
            out.append(to);
            push_rest(&mut out, &v, i + pat.len());
            assert(s.skip(pat@.len() as int) =~= v@.skip(i + pat.len()));
            assert(out@ =~= before + replaced_first(s, pat@, to@));
            return out;
        }
        assert(pat@.len() > 0) by {
            if pat@.len() == 0 {
                assert(v@.subrange(i as int, i as int) =~= pat@);
            }
        }
        out.push(v[i]);
        assert(s.skip(1) =~= v@.skip(i + 1));
        assert(out@ + replaced_first(s.skip(1), pat@, to@) =~= before + replaced_first(
            s,
            pat@,
            to@,
        ));
        i += 1;
    }
    if pat.len() == 0 {
        out.append(to);
    }
    out
}

/// `text` without the run of `c` at its head.
pub fn trim_leading(text: &str, c: char) -> (r: String)
    ensures
        r@ == without_leading(text@, c),
{
    let v = chars_of(text);
    let mut i: usize = 0;
    assert(v@.skip(0) =~= v@);
    while i < v.len() && v[i] == c
        invariant
            i <= v.len(),
            without_leading(v@.skip(i as int), c) == without_leading(v@, c),
        decreases v.len() - i,
    {
        assert(v@.skip(i as int).skip(1) =~= v@.skip(i + 1));
        i += 1;
    }
    let mut out = String::new();
    push_rest(&mut out, &v, i);
    out
}

/// Whether `text` begins with `pat`.
pub fn begins_with(text: &str, pat: &str) -> (r: bool)
    ensures
        r == occurs_at(text@, pat@, 0),
{
    let v = chars_of(text);
    let p = chars_of(pat);
    matches_at(&v, &p, 0)
}

/// The digit that writes a number below ten.
pub open spec fn digit_char(d: nat) -> char {
    ((0x30 + d) as u8) as char
}

/// A number as written in base ten, without leading zeros.
pub open spec fn decimal_text_of(n: nat) -> Seq<char>
    decreases n,
{
    if n < 10 {
        seq![digit_char(n)]
    } else {
        decimal_text_of(n / 10).push(digit_char(n % 10))
    }
}

/// Writes a number in base ten.
pub fn decimal_text(n: u64) -> (r: String)
    ensures
        r@ == decimal_text_of(n as nat),
{
    let mut digits: Vec<char> = Vec::new();
    let mut rest: u64 = n;
    // The digits from the last to the first but one.
    while rest >= 10
        invariant
            decimal_text_of(n as nat) == decimal_text_of(rest as nat) + digits@.reverse(),
        decreases rest,
    {
        let d: u8 = (rest % 10) as u8;
        let ghost before = digits@;
        digits.push((0x30 + d) as char);
        proof {
            assert(digits@.reverse() =~= seq![digit_char((rest % 10) as nat)] + before.reverse());
            assert(decimal_text_of(rest as nat) == decimal_text_of((rest / 10) as nat).push(
                digit_char((rest % 10) as nat),
            ));
            assert(decimal_text_of((rest / 10) as nat).push(digit_char((rest % 10) as nat))
                + before.reverse() =~= decimal_text_of((rest / 10) as nat) + digits@.reverse());
        }
        rest = rest / 10;
    }
    let mut out = String::new();
    out.push((0x30 + rest as u8) as char);
    let mut i: usize = digits.len();
    assert(digits@.reverse().take(0) =~= Seq::<char>::empty());
    while i > 0
        invariant
            i <= digits.len(),
            out@ == decimal_text_of(rest as nat) + digits@.reverse().take(digits.len() - i),
            rest < 10,
        decreases i,
    {
        i -= 1;
        out.push(digits[i]);
        proof {
            let r = digits@.reverse();
            let k = digits.len() - i;
            assert(r.take(k as int) =~= r.take(k - 1).push(digits@[i as int]));
        }
    }
    assert(digits@.reverse().take(digits.len() as int) =~= digits@.reverse());
    out
}

} // verus!
