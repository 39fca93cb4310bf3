use vstd::prelude::*;

verus! {

/// Relies on std's `String::push`: appends exactly the one character.
#[verifier::external_body]
pub(crate) fn push_char(s: &mut String, c: char)
    ensures
        final(s)@ == old(s)@ + seq![c],
{
    s.push(c)
}

/// Character-for-character string equality.
pub fn str_eq(a: &str, b: &str) -> (r: bool)
    ensures
        r == (a@ == b@),
{
    let na: usize = a.unicode_len();
    let nb: usize = b.unicode_len();
    if na != nb {
        return false;
    }
    let mut i: usize = 0;
    while i < na
        invariant
            na == a@.len(),
            na == b@.len(),
            0 <= i <= na,
            forall|k: int| 0 <= k < i ==> a@[k] == b@[k],
        decreases na - i,
    {
        if a.get_char(i) != b.get_char(i) {
            return false;
        }
        i = i + 1;
    }
    proof {
        assert(a@ =~= b@);
    }
    true
}

pub open spec fn spec_digit_char(d: int) -> char {
    if d == 0 {
        '0'
    } else if d == 1 {
        '1'
    } else if d == 2 {
        '2'
    } else if d == 3 {
        '3'
    } else if d == 4 {
        '4'
    } else if d == 5 {
        '5'
    } else if d == 6 {
        '6'
    } else if d == 7 {
        '7'
    } else if d == 8 {
        '8'
    } else {
        '9'
    }
}

/// The decimal numeral of an unsigned value, most significant digit first.
pub open spec fn spec_u64_dec(n: nat) -> Seq<char>
    decreases n,
{
    if n < 10 {
        seq![spec_digit_char(n as int)]
    } else {
        spec_u64_dec(n / 10) + seq![spec_digit_char((n % 10) as int)]
    }
}

/// The decimal numeral of a signed value: a minus sign, then the magnitude.
pub open spec fn spec_i64_dec(v: int) -> Seq<char> {
    if v < 0 {
        seq!['-'] + spec_u64_dec((-v) as nat)
    } else {
        spec_u64_dec(v as nat)
    }
}

fn digit_char(d: u64) -> (c: char)
    requires
        d < 10,
    ensures
        c == spec_digit_char(d as int),
{
    match d {
        0 => '0',
        1 => '1',
        2 => '2',
        3 => '3',
        4 => '4',
        5 => '5',
        6 => '6',
        7 => '7',
        8 => '8',
        _ => '9',
    }
}

/// Renders an unsigned value as its decimal numeral.
pub fn u64_to_string(n: u64) -> (s: String)
    ensures
        s@ == spec_u64_dec(n as nat),
    decreases n,
{
    if n < 10 {
        let mut s = String::new();
        push_char(&mut s, digit_char(n));
        s
    } else {
        let mut s = u64_to_string(n / 10);
        push_char(&mut s, digit_char(n % 10));
        s
    }
}

/// Renders a signed value as its decimal numeral.
pub fn i64_to_string(v: i64) -> (s: String)
    ensures
        s@ == spec_i64_dec(v as int),
{
    if v >= 0 {
        u64_to_string(v as u64)
    } else {
        let m: u64 = if v == i64::MIN {
            9223372036854775808u64
        } else {
            (-v) as u64
        };
        let mut s = String::new();
        push_char(&mut s, '-');
        let mag = u64_to_string(m);
        let r = s.concat(mag.as_str());
        proof {
            assert(r@ =~= spec_i64_dec(v as int));
        }
        r
    }
}

/// A minute count rendered with two digits, a leading zero below ten.
pub open spec fn spec_two_digits(n: int) -> Seq<char> {
    if n < 10 {
        seq!['0'] + spec_u64_dec(n as nat)
    } else {
        spec_u64_dec(n as nat)
    }
}

/// Renders a minute count with two digits.
pub fn two_digits(n: u64) -> (s: String)
    requires
        n < 60,
    ensures
        s@ == spec_two_digits(n as int),
{
    if n < 10 {
        let mut s = String::new();
        push_char(&mut s, '0');
        let d = u64_to_string(n);
        let r = s.concat(d.as_str());
        proof {
            assert(r@ =~= spec_two_digits(n as int));
        }
        r
    } else {
        u64_to_string(n)
    }
}

/// The values joined with a comma and a space between neighbours.
pub open spec fn spec_join_comma(xs: Seq<String>) -> Seq<char>
    decreases xs.len(),
{
    if xs.len() == 0 {
        Seq::empty()
    } else if xs.len() == 1 {
        xs[0]@
    } else {
        spec_join_comma(xs.drop_last()) + seq![',', ' '] + xs.last()@
    }
}

/// Joins the values with `", "` between neighbours.
pub fn join_comma(v: &Vec<String>) -> (s: String)
    ensures
        s@ == spec_join_comma(v@),
{
    let mut s = String::new();
    let mut i: usize = 0;
    while i < v.len()
        invariant
            0 <= i <= v@.len(),
            s@ == spec_join_comma(v@.take(i as int)),
        decreases v@.len() - i,
    {
        if i > 0 {
            push_char(&mut s, ',');
            push_char(&mut s, ' ');
        }
        s.append(v[i].as_str());
        proof {
            assert(v@.take(i as int + 1).drop_last() =~= v@.take(i as int));
            assert(v@.take(i as int + 1).last() == v@[i as int]);
        }
        i = i + 1;
    }
    proof {
        assert(v@.take(v@.len() as int) =~= v@);
    }
    s
}

/// The text with every line break replaced by a space.
pub open spec fn spec_collapse_newlines(s: Seq<char>) -> Seq<char> {
    s.map_values(|c: char| if c == '\n' { ' ' } else { c })
}

/// Replaces every line break with a space.
pub fn collapse_newlines(s: &str) -> (r: String)
    ensures
        r@ == spec_collapse_newlines(s@),
{
    let n: usize = s.unicode_len();
    let mut out = String::new();
    let mut i: usize = 0;
    while i < n
        invariant
            n == s@.len(),
            0 <= i <= n,
            out@ == spec_collapse_newlines(s@.take(i as int)),
        decreases n - i,
    {
        let c = s.get_char(i);
        if c == '\n' {
            push_char(&mut out, ' ');
        } else {
            push_char(&mut out, c);
        }
        proof {
            assert(spec_collapse_newlines(s@.take(i as int + 1)) =~= spec_collapse_newlines(
                s@.take(i as int),
            ) + seq![if s@[i as int] == '\n' { ' ' } else { s@[i as int] }]);
        }
        i = i + 1;
    }
    proof {
        assert(s@.take(n as int) =~= s@);
    }
    out
}

} // verus!
