//! Wire encoding of query-string pieces: list joining with the encoded
//! comma `%2C`, `true`/`false` tokens for flags, decimal rendering of
//! integers, and the fragment contributed by an optional parameter.

use vstd::prelude::*;

verus! {

/// The pieces of `parts` laid end to end with `sep` between each
/// adjacent pair; empty for an empty list.
pub open spec fn sep_join(parts: Seq<Seq<char>>, sep: Seq<char>) -> Seq<char>
    decreases parts.len(),
{
    if parts.len() == 0 {
        Seq::empty()
    } else if parts.len() == 1 {
        parts[0]
    } else {
        parts[0] + sep + sep_join(parts.drop_first(), sep)
    }
}

pub proof fn lemma_sep_join_push(parts: Seq<Seq<char>>, sep: Seq<char>, last: Seq<char>)
    ensures
        sep_join(parts.push(last), sep) == (if parts.len() == 0 {
            last
        } else {
            sep_join(parts, sep) + sep + last
        }),
    decreases parts.len(),
{
    if parts.len() == 0 {
        assert(parts.push(last) =~= seq![last]);
        assert(sep_join(seq![last], sep) == last);
    } else if parts.len() == 1 {
        assert(parts.push(last).drop_first() =~= seq![last]);
        assert(sep_join(seq![last], sep) == last);
        assert(parts.push(last)[0] == parts[0]);
        assert(sep_join(parts.push(last), sep) == parts[0] + sep + last);
        assert(sep_join(parts, sep) == parts[0]);
    } else {
        assert(parts.push(last).drop_first() =~= parts.drop_first().push(last));
        lemma_sep_join_push(parts.drop_first(), sep, last);
        assert(sep_join(parts.push(last), sep) == parts[0] + sep + sep_join(
            parts.drop_first().push(last),
            sep,
        ));
        assert(parts[0] + sep + (sep_join(parts.drop_first(), sep) + sep + last) =~= (parts[0]
            + sep + sep_join(parts.drop_first(), sep)) + sep + last);
    }
}

/// Joins the parts with `sep` between each adjacent pair.
pub fn join_with(parts: &Vec<String>, sep: &str) -> (r: String)
    ensures
        r@ == sep_join(parts@.map_values(|p: String| p@), sep@),
{
    let ghost views = parts@.map_values(|p: String| p@);
    let mut out = String::new();
    let mut i: usize = 0;
    while i < parts.len()
        invariant
            i <= parts.len(),
            views == parts@.map_values(|p: String| p@),
            out@ == sep_join(views.take(i as int), sep@),
        decreases parts.len() - i,
    {
        if i > 0 {
            out.append(sep);
        }
        out.append(parts[i].as_str());
        proof {
            lemma_sep_join_push(views.take(i as int), sep@, views[i as int]);
            assert(views.take(i as int).push(views[i as int]) =~= views.take(i as int + 1));
            if i == 0 {
                assert(out@ =~= views[0]);
            }
        }
        i = i + 1;
    }
    proof {
        assert(views.take(parts@.len() as int) =~= views);
    }
    out
}

/// How many times `c` occurs in `s`.
pub open spec fn count_char(s: Seq<char>, c: char) -> nat
    decreases s.len(),
{
    if s.len() == 0 {
        0
    } else {
        (if s[0] == c {
            1nat
        } else {
            0nat
        }) + count_char(s.drop_first(), c)
    }
}

pub proof fn lemma_count_char_concat(a: Seq<char>, b: Seq<char>, c: char)
    ensures
        count_char(a + b, c) == count_char(a, c) + count_char(b, c),
    decreases a.len(),
{
    if a.len() == 0 {
        assert(a + b =~= b);
    } else {
        assert((a + b).drop_first() =~= a.drop_first() + b);
        lemma_count_char_concat(a.drop_first(), b, c);
    }
}

pub proof fn lemma_count_char_zero(s: Seq<char>, c: char)
    ensures
        (count_char(s, c) == 0) <==> (forall|i: int| 0 <= i < s.len() ==> s[i] != c),
    decreases s.len(),
{
    if s.len() > 0 {
        lemma_count_char_zero(s.drop_first(), c);
        assert(forall|i: int| 1 <= i < s.len() ==> s[i] == #[trigger] s.drop_first()[i - 1]);
        assert(forall|i: int| 1 <= i < s.len() ==> #[trigger] s[i] == s.drop_first()[i - 1]);
    }
}

proof fn lemma_count_char_triple(s: Seq<char>, c: char)
    requires
        s.len() == 3,
    ensures
        count_char(s, c) == (if s[0] == c {
            1nat
        } else {
            0nat
        }) + (if s[1] == c {
            1nat
        } else {
            0nat
        }) + (if s[2] == c {
            1nat
        } else {
            0nat
        }),
{
    let s1 = s.drop_first();
    let s2 = s1.drop_first();
    let s3 = s2.drop_first();
    assert(s1[0] == s[1] && s1[1] == s[2]);
    assert(s2[0] == s[2]);
    assert(s3.len() == 0);
    assert(count_char(s3, c) == 0);
    assert(count_char(s2, c) == (if s[2] == c {
        1nat
    } else {
        0nat
    }));
    assert(count_char(s1, c) == (if s[1] == c {
        1nat
    } else {
        0nat
    }) + (if s[2] == c {
        1nat
    } else {
        0nat
    }));
}

/// A joined identifier list is separated by literal encoded commas and by
/// nothing else: for identifiers free of `%` and `,`, the join of `n` of
/// them holds no raw comma and exactly `n - 1` percent signs, each of which
/// begins an occurrence of the three characters `%2C`.
pub proof fn lemma_join_encoded_commas(parts: Seq<Seq<char>>)
    requires
        parts.len() >= 1,
        forall|i: int| 0 <= i < parts.len() ==> count_char(#[trigger] parts[i], '%') == 0,
        forall|i: int| 0 <= i < parts.len() ==> count_char(#[trigger] parts[i], ',') == 0,
    ensures
        count_char(sep_join(parts, "%2C"@), ',') == 0,
        count_char(sep_join(parts, "%2C"@), '%') == parts.len() - 1,
        forall|p: int|
            0 <= p < sep_join(parts, "%2C"@).len() && #[trigger] sep_join(parts, "%2C"@)[p] == '%'
                ==> p + 2 < sep_join(parts, "%2C"@).len() && sep_join(parts, "%2C"@)[p + 1] == '2'
                && sep_join(parts, "%2C"@)[p + 2] == 'C',
    decreases parts.len(),
{
    reveal_strlit("%2C");
    let sep = "%2C"@;
    let j = sep_join(parts, sep);
    if parts.len() == 1 {
        lemma_count_char_zero(parts[0], '%');
        lemma_count_char_zero(parts[0], ',');
    } else {
        let rest = parts.drop_first();
        assert(forall|i: int|
            0 <= i < rest.len() ==> #[trigger] rest[i] == parts[i + 1]);
        lemma_join_encoded_commas(rest);
        let a = parts[0];
        let jr = sep_join(rest, sep);
        assert(j == a + sep + jr);
        lemma_count_char_concat(a + sep, jr, ',');
        lemma_count_char_concat(a, sep, ',');
        lemma_count_char_concat(a + sep, jr, '%');
        lemma_count_char_concat(a, sep, '%');
        lemma_count_char_triple(sep, ',');
        lemma_count_char_triple(sep, '%');
        lemma_count_char_zero(a, '%');
        lemma_count_char_zero(a, ',');
        let la = a.len() as int;
        assert forall|p: int| 0 <= p < j.len() && #[trigger] j[p] == '%' implies p + 2 < j.len()
            && j[p + 1] == '2' && j[p + 2] == 'C' by {
            if p < la {
                assert(j[p] == a[p]);
                assert(false);
            } else if p < la + 3 {
                assert(j[p] == sep[p - la]);
                assert(p == la);
                assert(j[la + 1] == sep[1]);
                assert(j[la + 2] == sep[2]);
                assert(j.len() == la + 3 + jr.len());
            } else {
                let q = p - la - 3;
                assert(j[p] == jr[q]);
                assert(j[p + 1] == jr[q + 1]);
                assert(j[p + 2] == jr[q + 2]);
            }
        }
    }
}

/// The token a boolean parameter is rendered to on the wire.
pub open spec fn bool_token(b: bool) -> Seq<char> {
    if b {
        "true"@
    } else {
        "false"@
    }
}

pub fn bool_str(b: bool) -> (r: &'static str)
    ensures
        r@ == bool_token(b),
{
    if b {
        "true"
    } else {
        "false"
    }
}

/// The decimal digit character for a value below ten.
pub open spec fn dec_digit(d: nat) -> char {
    if d == 0 {
        '0'
    } else if d == 1 {
        '1'
    } else if d == 2 {
        '2'
    } else if d == 3 {
        '3'
    } else if d == 4 {
        '4'
    } else if d == 5 {
        '5'
    } else if d == 6 {
        '6'
    } else if d == 7 {
        '7'
    } else if d == 8 {
        '8'
    } else {
        '9'
    }
}

/// The decimal rendering of a natural number, most significant digit
/// first, with no leading zeros (a single `0` for zero).
pub open spec fn dec_nat(n: nat) -> Seq<char>
    decreases n,
{
    if n < 10 {
        seq![dec_digit(n)]
    } else {
        dec_nat(n / 10) + seq![dec_digit(n % 10)]
    }
}

/// The decimal rendering of a signed integer: a leading `-` for negative
/// values, plain digits otherwise.
pub open spec fn dec_int(n: int) -> Seq<char> {
    if n >= 0 {
        dec_nat(n as nat)
    } else {
        seq!['-'] + dec_nat((-n) as nat)
    }
}

fn digit_str(d: u64) -> (r: &'static str)
    requires
        d < 10,
    ensures
        r@ == seq![dec_digit(d as nat)],
{
    if d == 0 {
        proof {
            reveal_strlit("0");
            assert("0"@ =~= seq![dec_digit(0)]);
        }
        "0"
    } else if d == 1 {
        proof {
            reveal_strlit("1");
            assert("1"@ =~= seq![dec_digit(1)]);
        }
        "1"
    } else if d == 2 {
        proof {
            reveal_strlit("2");
            assert("2"@ =~= seq![dec_digit(2)]);
        }
        "2"
    } else if d == 3 {
        proof {
            reveal_strlit("3");
            assert("3"@ =~= seq![dec_digit(3)]);
        }
        "3"
    } else if d == 4 {
        proof {
            reveal_strlit("4");
            assert("4"@ =~= seq![dec_digit(4)]);
        }
        "4"
    } else if d == 5 {
        proof {
            reveal_strlit("5");
            assert("5"@ =~= seq![dec_digit(5)]);
        }
        "5"
    } else if d == 6 {
        proof {
            reveal_strlit("6");
            assert("6"@ =~= seq![dec_digit(6)]);
        }
        "6"
    } else if d == 7 {
        proof {
            reveal_strlit("7");
            assert("7"@ =~= seq![dec_digit(7)]);
        }
        "7"
    } else if d == 8 {
        proof {
            reveal_strlit("8");
            assert("8"@ =~= seq![dec_digit(8)]);
        }
        "8"
    } else {
        proof {
            reveal_strlit("9");
            assert("9"@ =~= seq![dec_digit(9)]);
        }
        "9"
    }
}

/// Renders an unsigned value in decimal.
pub fn fmt_u64(n: u64) -> (r: String)
    ensures
        r@ == dec_nat(n as nat),
    decreases n,
{
    if n < 10 {
        digit_str(n).to_owned()
    } else {
        let mut s = fmt_u64(n / 10);
        s.append(digit_str(n % 10));
        s
    }
}

/// Renders a signed value in decimal.
pub fn fmt_i64(n: i64) -> (r: String)
    ensures
        r@ == dec_int(n as int),
{
    if n >= 0 {
        fmt_u64(n as u64)
    } else {
        let mag: u64 = if n == i64::MIN {
            9223372036854775808u64
        } else {
            (-n) as u64
        };
        let mut s = "-".to_owned();
        proof {
            reveal_strlit("-");
            assert(s@ =~= seq!['-']);
        }
        let digits = fmt_u64(mag);
        s.append(digits.as_str());
        s
    }
}

/// The character sequences of a sequence of strings.
pub open spec fn str_views(v: Seq<String>) -> Seq<Seq<char>> {
    v.map_values(|s: String| s@)
}

/// The view of an optional borrowed string.
pub open spec fn opt_str_view(o: Option<&str>) -> Option<Seq<char>> {
    match o {
        Some(s) => Some(s@),
        None => None,
    }
}

/// What an optional parameter contributes to a query string: its key
/// prefix followed by its value when present, and nothing when absent.
pub open spec fn opt_fragment(prefix: Seq<char>, value: Option<Seq<char>>) -> Seq<char> {
    match value {
        Some(v) => prefix + v,
        None => Seq::empty(),
    }
}

/// An omitted optional parameter never appears in a query string: the
/// fragment an absent value contributes is the empty character sequence,
/// so neither its key nor any placeholder value is emitted for it.
pub proof fn lemma_omitted_parameter_absent(prefix: Seq<char>)
    ensures
        opt_fragment(prefix, None) == Seq::<char>::empty(),
{
}

} // verus!
