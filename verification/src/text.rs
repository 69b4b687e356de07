use vstd::prelude::*;

verus! {

/// Appends one character to a string (`String::push`).
#[verifier::external_body]
pub(crate) fn push_char(s: &mut String, c: char)
    ensures
        final(s)@ == old(s)@.push(c),
{
    s.push(c);
}

/// The decimal digit character of a value below ten.
pub open spec fn digit_char(d: int) -> char {
    (48 + d) as char
}

/// The decimal digits of a natural number, most significant first, without leading zeros.
pub open spec fn nat_decimal(n: nat) -> Seq<char>
    decreases n,
{
    if n < 10 {
        seq![digit_char(n as int)]
    } else {
        nat_decimal(n / 10).push(digit_char((n % 10) as int))
    }
}

/// The decimal notation of an integer: a minus sign before the digits of a negative one.
pub open spec fn int_decimal(n: int) -> Seq<char> {
    if n < 0 {
        seq!['-'] + nat_decimal((-n) as nat)
    } else {
        nat_decimal(n as nat)
    }
}

fn push_decimal_digits(s: &mut String, n: u64)
    ensures
        final(s)@ == old(s)@ + nat_decimal(n as nat),
    decreases n,
{
    if n >= 10 {
        push_decimal_digits(s, n / 10);
    }
    let d: u8 = (n % 10) as u8;
    push_char(s, (48 + d) as char);
    assert(final(s)@ =~= old(s)@ + nat_decimal(n as nat));
}

/// Formats an integer in decimal notation, as `format!("{}", n)` does.
pub fn decimal_string(n: i64) -> (res: String)
    ensures
        res@ == int_decimal(n as int),
{
    let mut s = String::new();
    if n < 0 {
        push_char(&mut s, '-');
        let m: u64 = (-(n as i128)) as u64;
        push_decimal_digits(&mut s, m);
    } else {
        push_decimal_digits(&mut s, n as u64);
    }
    assert(s@ =~= int_decimal(n as int));
    s
}

/// The characters of a string slice, in order.
pub fn chars_of(s: &str) -> (v: Vec<char>)
    ensures
        v@ == s@,
{
    broadcast use vstd::string::group_string_axioms;
    let mut v: Vec<char> = Vec::new();
    for c in it: s.chars()
        invariant
            v@.len() == it.index(),
            forall|j: int| 0 <= j < v@.len() ==> v@[j] == it.seq()[j],
    {
        v.push(c);
    }
    assert(v@ =~= s@);
    v
}


/// Whether `pat` is a non-empty prefix of `s`.
pub open spec fn starts_with(s: Seq<char>, pat: Seq<char>) -> bool {
    0 < pat.len() <= s.len() && s.take(pat.len() as int) == pat
}

/// `s` with every match of the non-empty `pat` replaced by `rep`, matches taken from the
/// left without overlapping, as `str::replace` does.
pub open spec fn replaced(s: Seq<char>, pat: Seq<char>, rep: Seq<char>) -> Seq<char>
    decreases s.len(),
{
    if s.len() == 0 {
        Seq::empty()
    } else if starts_with(s, pat) {
        rep + replaced(s.skip(pat.len() as int), pat, rep)
    } else {
        seq![s[0]] + replaced(s.skip(1), pat, rep)
    }
}

fn matches_at(s: &Vec<char>, i: usize, pat: &Vec<char>) -> (res: bool)
    requires
        i <= s@.len(),
    ensures
        res == starts_with(s@.skip(i as int), pat@),
{
    if pat.len() == 0 || pat.len() > s.len() - i {
        return false;
    }
    let mut k: usize = 0;
    while k < pat.len()
        invariant
            0 < pat@.len(),
            i + pat@.len() <= s@.len(),
            s@.len() <= usize::MAX,
            k <= pat@.len(),
            forall|j: int| 0 <= j < k ==> s@[i + j] == pat@[j],
        decreases pat@.len() - k,
    {
        if s[i + k] != pat[k] {
            assert(s@.skip(i as int).take(pat@.len() as int)[k as int] != pat@[k as int]);
            return false;
        }
        k += 1;
    }
    assert(s@.skip(i as int).take(pat@.len() as int) =~= pat@);
    true
}

/// Replaces every match of a non-empty pattern, as `str::replace` does.
pub fn replace_all(s: &str, pat: &str, rep: &str) -> (res: String)
    requires
        pat@.len() > 0,
    ensures
        res@ == replaced(s@, pat@, rep@),
{
    let sv = chars_of(s);
    let pv = chars_of(pat);
    let mut out = String::new();
    let mut i: usize = 0;
    assert(sv@.skip(0) =~= sv@);
    while i < sv.len()
        invariant
            i <= sv@.len(),
            pv@ == pat@,
            pv@.len() > 0,
            out@ + replaced(sv@.skip(i as int), pv@, rep@) == replaced(sv@, pv@, rep@),
        decreases sv@.len() - i,
    {
        let ghost rest = sv@.skip(i as int);
        if matches_at(&sv, i, &pv) {
            out.append(rep);
            assert(rest.skip(pv@.len() as int) =~= sv@.skip(i + pv@.len()));
            i = i + pv.len();
        } else {
            push_char(&mut out, sv[i]);
            assert(rest.skip(1) =~= sv@.skip(i + 1));
            i = i + 1;
        }
    }
    assert(sv@.skip(i as int) =~= Seq::<char>::empty());
    assert(out@ =~= out@ + replaced(sv@.skip(i as int), pv@, rep@));
    out
}

/// The number that a string of decimal digit characters denotes, most significant first.
pub open spec fn decimal_value(s: Seq<char>) -> int
    decreases s.len(),
{
    if s.len() == 0 {
        0
    } else {
        decimal_value(s.drop_last()) * 10 + (s.last() as int - 48)
    }
}

/// Whether every character is a decimal digit.
pub open spec fn all_digits(s: Seq<char>) -> bool {
    forall|i: int| 0 <= i < s.len() ==> '0' <= #[trigger] s[i] && s[i] <= '9'
}

/// The decimal digits of `n` are digits, at least one, with no leading zero unless `n` is zero,
/// and they denote `n`.
pub proof fn lemma_nat_decimal_reads_back(n: nat)
    ensures
        nat_decimal(n).len() >= 1,
        all_digits(nat_decimal(n)),
        decimal_value(nat_decimal(n)) == n,
        nat_decimal(n)[0] == '0' ==> n == 0,
    decreases n,
{
    assert((48 + (n % 10)) as char as int == 48 + (n % 10));
    if n >= 10 {
        lemma_nat_decimal_reads_back(n / 10);
        let d = nat_decimal(n / 10);
        assert(nat_decimal(n).drop_last() =~= d);
        assert(nat_decimal(n)[0] == d[0]);
        assert(nat_decimal(n).last() == digit_char((n % 10) as int));
        assert(decimal_value(nat_decimal(n)) == decimal_value(d) * 10 + (n % 10));
        assert((n / 10) * 10 + n % 10 == n);
    } else {
        assert(nat_decimal(n).drop_last() =~= Seq::<char>::empty());
        assert(decimal_value(Seq::<char>::empty()) == 0);
    }
}

/// The decimal notation of a negative number is a minus sign before the digits of its
/// magnitude; that of any other number is its digits.
pub proof fn lemma_int_decimal_reads_back(n: int)
    ensures
        n < 0 ==> int_decimal(n)[0] == '-' && decimal_value(int_decimal(n).skip(1)) == -n
            && all_digits(int_decimal(n).skip(1)),
        n >= 0 ==> decimal_value(int_decimal(n)) == n && all_digits(int_decimal(n)),
{
    if n < 0 {
        lemma_nat_decimal_reads_back((-n) as nat);
        assert(int_decimal(n).skip(1) =~= nat_decimal((-n) as nat));
    } else {
        lemma_nat_decimal_reads_back(n as nat);
    }
}

/// Replacing a pattern by itself changes nothing.
pub proof fn lemma_replace_by_itself(s: Seq<char>, pat: Seq<char>)
    ensures
        replaced(s, pat, pat) == s,
    decreases s.len(),
{
    if s.len() > 0 {
        if starts_with(s, pat) {
            lemma_replace_by_itself(s.skip(pat.len() as int), pat);
            assert(s =~= pat + s.skip(pat.len() as int));
        } else {
            lemma_replace_by_itself(s.skip(1), pat);
            assert(s =~= seq![s[0]] + s.skip(1));
        }
    }
}

/// A string in which the pattern occurs nowhere is left as it is; one that starts with the
/// pattern has its start replaced and the rest treated alike.
pub proof fn lemma_replace_occurrences(s: Seq<char>, pat: Seq<char>, rep: Seq<char>)
    ensures
        (forall|i: int| 0 <= i < s.len() ==> !#[trigger] starts_with(s.skip(i), pat))
            ==> replaced(s, pat, rep) == s,
        pat.len() > 0 ==> replaced(pat + s, pat, rep) == rep + replaced(s, pat, rep),
    decreases s.len(),
{
    if pat.len() > 0 {
        assert((pat + s).take(pat.len() as int) =~= pat);
        assert((pat + s).skip(pat.len() as int) =~= s);
    }
    if forall|i: int| 0 <= i < s.len() ==> !#[trigger] starts_with(s.skip(i), pat) {
        if s.len() > 0 {
            assert(s.skip(0) =~= s);
            assert forall|i: int| 0 <= i < s.skip(1).len() implies !#[trigger] starts_with(s.skip(1).skip(i), pat) by {
                assert(s.skip(1).skip(i) =~= s.skip(i + 1));
            }
            lemma_replace_occurrences(s.skip(1), pat, rep);
            assert(s =~= seq![s[0]] + s.skip(1));
        }
    }
}

} // verus!
