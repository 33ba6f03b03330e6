use vstd::prelude::*;

verus! {

/// The character that writes a decimal digit.
pub open spec fn digit_char(d: nat) -> char {
    if d == 0 {
        '0'
    } else if d == 1 {
        '1'
    } else if d == 2 {
        '2'
    } else if d == 3 {
        '3'
    } else if d == 4 {
        '4'
    } else if d == 5 {
        '5'
    } else if d == 6 {
        '6'
    } else if d == 7 {
        '7'
    } else if d == 8 {
        '8'
    } else {
        '9'
    }
}

/// The value of a decimal digit character (0 for any other character).
pub open spec fn digit_value(c: char) -> nat {
    if c == '1' {
        1
    } else if c == '2' {
        2
    } else if c == '3' {
        3
    } else if c == '4' {
        4
    } else if c == '5' {
        5
    } else if c == '6' {
        6
    } else if c == '7' {
        7
    } else if c == '8' {
        8
    } else if c == '9' {
        9
    } else {
        0
    }
}

/// The shortest decimal form of `n`, most significant digit first.
pub open spec fn decimal(n: nat) -> Seq<char>
    decreases n,
{
    if n < 10 {
        seq![digit_char(n)]
    } else {
        decimal(n / 10).push(digit_char(n % 10))
    }
}

/// The number that a string of decimal digits reads as.
pub open spec fn decimal_value(s: Seq<char>) -> nat
    decreases s.len(),
{
    if s.len() == 0 {
        0
    } else {
        decimal_value(s.drop_last()) * 10 + digit_value(s.last())
    }
}

/// `s` with a comma between each group of three characters, counted from
/// the right.
pub open spec fn grouped(s: Seq<char>) -> Seq<char>
    decreases s.len(),
{
    if s.len() <= 3 {
        s
    } else {
        grouped(s.subrange(0, s.len() - 3)) + seq![','] + s.subrange(s.len() - 3, s.len() as int)
    }
}

/// `s` with every comma taken out.
pub open spec fn without_commas(s: Seq<char>) -> Seq<char>
    decreases s.len(),
{
    if s.len() == 0 {
        s
    } else if s.last() == ',' {
        without_commas(s.drop_last())
    } else {
        without_commas(s.drop_last()).push(s.last())
    }
}

/// The first `i` characters of `s`, each preceded by a comma where the
/// characters from it to the end of `s` come to a multiple of three (never
/// before the first).
spec fn grouped_prefix(s: Seq<char>, i: nat) -> Seq<char>
    decreases i,
{
    if i == 0 {
        Seq::empty()
    } else {
        let j = (i - 1) as nat;
        let sep: Seq<char> = if j > 0 && (s.len() - j) % 3 == 0 {
            seq![',']
        } else {
            Seq::empty()
        };
        grouped_prefix(s, j) + sep + seq![s[j as int]]
    }
}

proof fn lemma_prefix_of_prefix(s: Seq<char>, m: nat, k: nat)
    requires
        k <= m <= s.len(),
        (s.len() - m) % 3 == 0,
    ensures
        grouped_prefix(s, k) == grouped_prefix(s.take(m as int), k),
    decreases k,
{
    if k > 0 {
        let j = (k - 1) as nat;
        lemma_prefix_of_prefix(s, m, j);
        assert((s.len() - j) % 3 == (m - j) % 3);
        assert(s.take(m as int)[j as int] == s[j as int]);
    }
}

proof fn lemma_short_prefix(s: Seq<char>, k: nat)
    requires
        k <= s.len() <= 3,
    ensures
        grouped_prefix(s, k) == s.take(k as int),
    decreases k,
{
    if k > 0 {
        lemma_short_prefix(s, (k - 1) as nat);
        assert(s.take(k as int) =~= s.take(k - 1) + seq![s[k - 1]]);
    }
}

proof fn lemma_grouped_prefix_full(s: Seq<char>)
    ensures
        grouped_prefix(s, s.len()) == grouped(s),
    decreases s.len(),
{
    let n = s.len();
    if n <= 3 {
        lemma_short_prefix(s, n);
        assert(s.take(n as int) =~= s);
    } else {
        let m = (n - 3) as nat;
        let t = s.subrange(0, m as int);
        lemma_grouped_prefix_full(t);
        lemma_prefix_of_prefix(s, m, m);
        assert(s.take(m as int) =~= t);
        assert(grouped_prefix(s, m + 1) == grouped_prefix(s, m) + seq![','] + seq![s[m as int]]);
        assert(grouped_prefix(s, m + 2) == grouped_prefix(s, m + 1) + Seq::<char>::empty() + seq![s[m + 1int]]);
        assert(grouped_prefix(s, m + 3) == grouped_prefix(s, m + 2) + Seq::<char>::empty() + seq![s[m + 2int]]);
        assert(grouped_prefix(s, n) =~= grouped(t) + seq![','] + s.subrange(m as int, n as int));
    }
}

proof fn lemma_without_commas_concat(a: Seq<char>, b: Seq<char>)
    ensures
        without_commas(a + b) == without_commas(a) + without_commas(b),
    decreases b.len(),
{
    if b.len() == 0 {
        assert(a + b =~= a);
        assert(without_commas(a) + without_commas(b) =~= without_commas(a));
    } else {
        lemma_without_commas_concat(a, b.drop_last());
        assert((a + b).drop_last() =~= a + b.drop_last());
        assert((a + b).last() == b.last());
        if b.last() != ',' {
            assert(without_commas(a) + without_commas(b) =~= (without_commas(a) + without_commas(b.drop_last())).push(b.last()));
        }
    }
}

proof fn lemma_without_commas_none(s: Seq<char>)
    requires
        forall|i: int| 0 <= i < s.len() ==> s[i] != ',',
    ensures
        without_commas(s) == s,
    decreases s.len(),
{
    if s.len() > 0 {
        lemma_without_commas_none(s.drop_last());
        assert(s.drop_last().push(s.last()) =~= s);
    }
}

/// Taking the commas out of the grouped form of a string that holds none
/// gives the string back.
pub proof fn lemma_grouping_keeps_digits(s: Seq<char>)
    requires
        forall|i: int| 0 <= i < s.len() ==> s[i] != ',',
    ensures
        without_commas(grouped(s)) == s,
    decreases s.len(),
{
    if s.len() <= 3 {
        lemma_without_commas_none(s);
    } else {
        let m = s.len() - 3;
        let t = s.subrange(0, m);
        let tail = s.subrange(m, s.len() as int);
        lemma_grouping_keeps_digits(t);
        lemma_without_commas_concat(grouped(t) + seq![','], tail);
        lemma_without_commas_concat(grouped(t), seq![',']);
        assert(seq![','].drop_last() =~= Seq::<char>::empty());
        assert(seq![','].last() == ',');
        assert(without_commas(Seq::<char>::empty()) == Seq::<char>::empty());
        assert(without_commas(seq![',']) =~= Seq::<char>::empty());
        lemma_without_commas_none(tail);
        assert(t + tail =~= s);
    }
}

/// The decimal form of a number is made of digits only, never starts with a
/// zero unless the number is zero, and reads back as the number.
pub proof fn lemma_decimal_reads_back(n: nat)
    ensures
        decimal_value(decimal(n)) == n,
        decimal(n).len() >= 1,
        forall|i: int| 0 <= i < decimal(n).len() ==> digit_char(digit_value(#[trigger] decimal(n)[i])) == decimal(n)[i],
        decimal(n)[0] == '0' <==> n == 0,
    decreases n,
{
    if n < 10 {
        assert(decimal(n).drop_last() =~= Seq::<char>::empty());
        assert(decimal_value(Seq::<char>::empty()) == 0);
        assert(digit_value(digit_char(n)) == n);
    } else {
        assert(digit_value(digit_char(n % 10)) == n % 10);
        lemma_decimal_reads_back(n / 10);
        assert(n == (n / 10) * 10 + n % 10);
        let d = decimal(n / 10);
        assert(decimal(n).drop_last() =~= d);
        assert forall|i: int| 0 <= i < decimal(n).len() implies digit_char(digit_value(#[trigger] decimal(n)[i])) == decimal(n)[i] by {
            if i < d.len() {
                assert(decimal(n)[i] == d[i]);
            }
        }
        assert(decimal(n)[0] == d[0]);
    }
}

/// What `format_number` shows, with its commas taken out, is the decimal
/// form of the value, which reads back as the value.
pub proof fn lemma_format_number_reads_back(value: u64)
    ensures
        without_commas(grouped(decimal(value as nat))) == decimal(value as nat),
        decimal_value(without_commas(grouped(decimal(value as nat)))) == value,
{
    lemma_decimal_reads_back(value as nat);
    let d = decimal(value as nat);
    assert forall|i: int| 0 <= i < d.len() implies d[i] != ',' by {
        assert(digit_char(digit_value(d[i])) == d[i]);
    }
    lemma_grouping_keeps_digits(d);
}

/// The layout of the grouped form of a string of `n >= 1` characters with no
/// comma: `n + (n - 1) / 3` characters long; counted from its right end,
/// every fourth character is a comma and no other one is; so every group
/// after the first has exactly three characters, and the first one to three.
pub proof fn lemma_grouped_layout(s: Seq<char>)
    requires
        s.len() >= 1,
        forall|i: int| 0 <= i < s.len() ==> s[i] != ',',
    ensures
        grouped(s).len() == s.len() + (s.len() - 1) / 3,
        forall|p: int|
            0 <= p < grouped(s).len() ==> (#[trigger] grouped(s)[p] == ',' <==> (grouped(s).len() - p) % 4 == 0),
    decreases s.len(),
{
    let n = s.len();
    if n > 3 {
        let m = n - 3;
        let t = s.subrange(0, m as int);
        let tail = s.subrange(m as int, n as int);
        lemma_grouped_layout(t);
        let gt = grouped(t);
        let g = grouped(s);
        assert(g == gt + seq![','] + tail);
        assert forall|p: int| 0 <= p < g.len() implies (#[trigger] g[p] == ',' <==> (g.len() - p) % 4 == 0) by {
            if p < gt.len() {
                assert(g[p] == gt[p]);
                assert((g.len() - p) % 4 == (gt.len() - p) % 4);
            } else if p == gt.len() {
                assert(g[p] == ',');
            } else {
                assert(g[p] == tail[p - gt.len() - 1]);
                assert(tail[p - gt.len() - 1] == s[m + p - gt.len() - 1]);
            }
        }
    }
}

/// The number that a string of digits reads as by the characters' codes
/// ('0' is 48, ..., '9' is 57).
pub open spec fn value_by_codes(s: Seq<char>) -> int
    decreases s.len(),
{
    if s.len() == 0 {
        0
    } else {
        value_by_codes(s.drop_last()) * 10 + (s.last() as int - 48)
    }
}

/// The decimal form of a number is made of the characters '0' to '9' only,
/// reads back by their codes as the number, and starts with '0' only for 0.
pub proof fn lemma_decimal_digit_codes(n: nat)
    ensures
        forall|i: int| 0 <= i < decimal(n).len() ==> 48 <= #[trigger] (decimal(n)[i] as int) <= 57,
        value_by_codes(decimal(n)) == n,
        decimal(n).len() >= 1,
        decimal(n)[0] as int == 48 <==> n == 0,
    decreases n,
{
    if n < 10 {
        assert(decimal(n).drop_last() =~= Seq::<char>::empty());
        assert(value_by_codes(Seq::<char>::empty()) == 0);
        assert(digit_char(n) as int == 48 + n);
    } else {
        lemma_decimal_digit_codes(n / 10);
        let d = decimal(n / 10);
        assert(decimal(n).drop_last() =~= d);
        assert(digit_char(n % 10) as int == 48 + n % 10);
        assert(n == (n / 10) * 10 + n % 10);
        assert forall|i: int| 0 <= i < decimal(n).len() implies 48 <= #[trigger] (decimal(n)[i] as int) <= 57 by {
            if i < d.len() {
                assert(decimal(n)[i] == d[i]);
            }
        }
        assert(decimal(n)[0] == d[0]);
    }
}

/// What `format_number` shows for a value: its decimal digits ('0' to '9',
/// reading back by their codes as the value, no leading zero), with a comma
/// before every digit that has a positive multiple of three digits after
/// it and nowhere else: counted from the right end, every fourth character
/// is a comma and no other one is.
pub proof fn lemma_format_number_layout(value: u64)
    ensures
        ({
            let d = decimal(value as nat);
            let g = grouped(d);
            &&& g.len() == d.len() + (d.len() - 1) / 3
            &&& forall|p: int| 0 <= p < g.len() ==> (#[trigger] g[p] == ',' <==> (g.len() - p) % 4 == 0)
            &&& without_commas(g) == d
            &&& value_by_codes(without_commas(g)) == value
            &&& forall|i: int| 0 <= i < d.len() ==> 48 <= #[trigger] (d[i] as int) <= 57
            &&& (d[0] as int == 48 <==> value == 0)
        }),
{
    lemma_decimal_digit_codes(value as nat);
    let d = decimal(value as nat);
    assert forall|i: int| 0 <= i < d.len() implies d[i] != ',' by {
        assert(48 <= d[i] as int <= 57);
    }
    lemma_grouped_layout(d);
    lemma_grouping_keeps_digits(d);
}

/// Appends the decimal form of `n` to `out`.
fn push_decimal(out: &mut Vec<char>, n: u64)
    ensures
        final(out)@ == old(out)@ + decimal(n as nat),
    decreases n,
{
    if n >= 10 {
        push_decimal(out, n / 10);
    }
    let d = n % 10;
    let c = if d == 0 {
        '0'
    } else if d == 1 {
        '1'
    } else if d == 2 {
        '2'
    } else if d == 3 {
        '3'
    } else if d == 4 {
        '4'
    } else if d == 5 {
        '5'
    } else if d == 6 {
        '6'
    } else if d == 7 {
        '7'
    } else if d == 8 {
        '8'
    } else {
        '9'
    };
    out.push(c);
    assert(out@ =~= old(out)@ + decimal(n as nat));
}

/// `String::push` of std: appends the character at the end of the string.
#[verifier::external_body]
fn push_char(s: &mut String, c: char)
    ensures
        final(s)@ == old(s)@.push(c),
{
    s.push(c);
}

/// The decimal form of `value` with its digits grouped in threes from the
/// right by commas, as the session counter is shown: 1234567 is "1,234,567".
pub fn format_number(value: u64) -> (text: String)
    ensures
        text@ == grouped(decimal(value as nat)),
{
    let mut digits: Vec<char> = Vec::new();
    push_decimal(&mut digits, value);
    assert(digits@ =~= decimal(value as nat));
    let len = digits.len();
    let mut out = String::new();
    for index in 0..len
        invariant
            len == digits@.len(),
            out@ == grouped_prefix(digits@, index as nat),
    {
        if index > 0 && (len - index) % 3 == 0 {
            push_char(&mut out, ',');
        }
        push_char(&mut out, digits[index]);
        assert(out@ =~= grouped_prefix(digits@, (index + 1) as nat));
    }
    proof {
        lemma_grouped_prefix_full(digits@);
    }
    out
}

} // verus!
