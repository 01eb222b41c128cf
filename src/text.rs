//! Text helpers: argument lists, decimal rendering, and from std case
//! folding and trimming.

use vstd::prelude::*;

verus! {

/// What `str::to_lowercase` gives for a text.
pub uninterp spec fn lower_of(s: Seq<char>) -> Seq<char>;

/// What `str::trim` gives for a text.
pub uninterp spec fn trim_of(s: Seq<char>) -> Seq<char>;

/// The character of a decimal digit.
pub open spec fn digit_char(d: int) -> char
    recommends
        0 <= d < 10,
{
    seq!['0', '1', '2', '3', '4', '5', '6', '7', '8', '9'][d]
}

/// The decimal digits of a natural number, most significant first.
pub open spec fn digits_of(n: nat) -> Seq<char>
    decreases n,
{
    if n < 10 {
        seq![digit_char(n as int)]
    } else {
        digits_of(n / 10).push(digit_char((n % 10) as int))
    }
}

/// The decimal rendering of an integer, with a leading `-` when negative.
pub open spec fn decimal_of(n: int) -> Seq<char> {
    if n < 0 {
        seq!['-'] + digits_of((-n) as nat)
    } else {
        digits_of(n as nat)
    }
}

/// Appends copies of `more` to `v`.
pub fn append_texts(v: &mut Vec<String>, more: &Vec<String>)
    ensures
        final(v).deep_view() == old(v).deep_view() + more.deep_view(),
{
    let ghost start = v.deep_view();
    let mut i: usize = 0;
    while i < more.len()
        invariant
            i <= more.len(),
            v.deep_view() == start + more.deep_view().take(i as int),
        decreases more.len() - i,
    {
        let ghost before = v.deep_view();
        let item = more[i].clone();
        v.push(item);
        assert(v.deep_view() =~= before.push(more[i as int]@));
        assert(more.deep_view().take(i + 1) =~= more.deep_view().take(i as int).push(
            more[i as int]@,
        ));
        i = i + 1;
    }
    assert(more.deep_view().take(i as int) =~= more.deep_view());
}

/// Relies on `str::to_lowercase`: the result depends on the characters alone.
#[verifier::external_body]
pub(crate) fn lowercase(s: &str) -> (r: String)
    ensures
        r@ == lower_of(s@),
{
    s.to_lowercase()
}

/// Relies on `str::trim`: the result depends on the characters alone.
#[verifier::external_body]
pub(crate) fn trimmed(s: &str) -> (r: String)
    ensures
        r@ == trim_of(s@),
{
    s.trim().to_string()
}

/// The text of one decimal digit.
fn digit_text(d: u64) -> (r: &'static str)
    requires
        d < 10,
    ensures
        r@ == seq![digit_char(d as int)],
{
    proof {
        reveal_strlit("0");
        reveal_strlit("1");
        reveal_strlit("2");
        reveal_strlit("3");
        reveal_strlit("4");
        reveal_strlit("5");
        reveal_strlit("6");
        reveal_strlit("7");
        reveal_strlit("8");
        reveal_strlit("9");
    }
    let r = if d == 0 {
        "0"
    } else if d == 1 {
        "1"
    } else if d == 2 {
        "2"
    } else if d == 3 {
        "3"
    } else if d == 4 {
        "4"
    } else if d == 5 {
        "5"
    } else if d == 6 {
        "6"
    } else if d == 7 {
        "7"
    } else if d == 8 {
        "8"
    } else {
        "9"
    };
    assert(r@ =~= seq![digit_char(d as int)]);
    r
}

/// The decimal digits of a natural number.
fn digits(n: u64) -> (r: String)
    ensures
        r@ == digits_of(n as nat),
    decreases n,
{
    if n < 10 {
        String::from_str(digit_text(n))
    } else {
        let mut r = digits(n / 10);
        r.append(digit_text(n % 10));
        assert(r@ =~= digits_of((n / 10) as nat).push(digit_char((n % 10) as int)));
        r
    }
}

/// The decimal rendering of an integer.
pub(crate) fn decimal(n: i64) -> (r: String)
    ensures
        r@ == decimal_of(n as int),
{
    if n < 0 {
        let magnitude: u64 = (0i128 - n as i128) as u64;
        let r = String::from_str("-").concat(digits(magnitude).as_str());
        proof {
            reveal_strlit("-");
        }
        assert(r@ =~= decimal_of(n as int));
        r
    } else {
        digits(n as u64)
    }
}

} // verus!
