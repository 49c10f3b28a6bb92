//! Decimal rendering of integers, zero padding, comma joining, and the
//! query-parameter fragment shapes shared by the request builders.

use vstd::prelude::*;
use vstd::string::StringExecFns;

verus! {

/// The character for a single decimal digit.
pub open spec fn digit_char(d: int) -> char {
    if d == 0 {
        '0'
    } else if d == 1 {
        '1'
    } else if d == 2 {
        '2'
    } else if d == 3 {
        '3'
    } else if d == 4 {
        '4'
    } else if d == 5 {
        '5'
    } else if d == 6 {
        '6'
    } else if d == 7 {
        '7'
    } else if d == 8 {
        '8'
    } else {
        '9'
    }
}

/// Decimal rendering of a natural number, most significant digit first,
/// without leading zeros (except for the number 0 itself).
pub open spec fn dec_digits(n: nat) -> Seq<char>
    decreases n,
{
    if n < 10 {
        seq![digit_char(n as int)]
    } else {
        dec_digits(n / 10) + seq![digit_char((n % 10) as int)]
    }
}

/// Two-digit, zero-padded rendering of a number below 100.
pub open spec fn pad2_chars(n: nat) -> Seq<char>
    recommends
        n < 100,
{
    seq![digit_char((n / 10) as int), digit_char((n % 10) as int)]
}

/// Four-digit, zero-padded rendering of a number below 10000.
pub open spec fn pad4_chars(n: nat) -> Seq<char>
    recommends
        n < 10000,
{
    seq![
        digit_char((n / 1000) as int),
        digit_char(((n / 100) % 10) as int),
        digit_char(((n / 10) % 10) as int),
        digit_char((n % 10) as int),
    ]
}

/// The pieces of `items` joined by single commas, with no leading or
/// trailing comma.
pub open spec fn comma_join(items: Seq<Seq<char>>) -> Seq<char>
    decreases items.len(),
{
    if items.len() == 0 {
        Seq::<char>::empty()
    } else if items.len() == 1 {
        items[0]
    } else {
        items[0] + seq![','] + comma_join(items.drop_first())
    }
}

/// Appending one more piece to a comma-joined list appends a comma first
/// exactly when the list was not empty.
pub proof fn lemma_comma_join_push(items: Seq<Seq<char>>, v: Seq<char>)
    ensures
        comma_join(items.push(v)) == if items.len() == 0 {
            v
        } else {
            (comma_join(items) + seq![','] + v)
        },
    decreases items.len(),
{
    if items.len() == 0 {
        assert(items.push(v) =~= seq![v]);
    } else {
        lemma_comma_join_push(items.drop_first(), v);
        assert(items.push(v).drop_first() =~= items.drop_first().push(v));
        assert(items.push(v)[0] == items[0]);
        if items.len() == 1 {
            assert(comma_join(items.push(v)) == items[0] + seq![','] + v);
        } else {
            assert(comma_join(items.push(v)) =~= comma_join(items) + seq![','] + v);
        }
    }
}

/// A `name=value&` query fragment for an optional numeric parameter:
/// empty when the parameter is absent.
pub open spec fn num_fragment(prefix: Seq<char>, v: Option<u16>) -> Seq<char> {
    match v {
        Some(n) => prefix + dec_digits(n as nat) + "&"@,
        None => Seq::<char>::empty(),
    }
}

/// A `name=value&` query fragment for an optional text parameter:
/// empty when the parameter is absent.
pub open spec fn text_fragment(prefix: Seq<char>, v: Option<Seq<char>>) -> Seq<char> {
    match v {
        Some(t) => prefix + t + "&"@,
        None => Seq::<char>::empty(),
    }
}

/// The pagination `size` fragment. A size outside the range 1..=100 is
/// dropped silently: the fragment is empty, exactly as for an absent size.
pub open spec fn size_fragment(size: Option<u16>) -> Seq<char> {
    match size {
        Some(s) => if 0 < s && s <= 100 {
            "size="@ + dec_digits(s as nat) + "&"@
        } else {
            Seq::<char>::empty()
        },
        None => Seq::<char>::empty(),
    }
}

/// The `size` fragment is non-empty for exactly the sizes in 1..=100.
pub proof fn lemma_size_fragment_bounds(size: u16)
    ensures
        (size_fragment(Some(size)) == Seq::<char>::empty()) <==> (size == 0 || size > 100),
{
    if 0 < size && size <= 100 {
        reveal_strlit("size=");
        assert(size_fragment(Some(size)).len() > 0);
    }
}

/// The one-character string for a single decimal digit.
fn digit_str(d: u8) -> (r: &'static str)
    requires
        d < 10,
    ensures
        r@ == seq![digit_char(d as int)],
{
    let r: &'static str = match d {
        0 => "0",
        1 => "1",
        2 => "2",
        3 => "3",
        4 => "4",
        5 => "5",
        6 => "6",
        7 => "7",
        8 => "8",
        _ => "9",
    };
    proof {
        reveal_strlit("0");
        reveal_strlit("1");
        reveal_strlit("2");
        reveal_strlit("3");
        reveal_strlit("4");
        reveal_strlit("5");
        reveal_strlit("6");
        reveal_strlit("7");
        reveal_strlit("8");
        reveal_strlit("9");
        assert(r@ =~= seq![digit_char(d as int)]);
    }
    r
}

/// Appends the decimal rendering of `n` to `s`.
pub fn push_dec_u32(s: &mut String, n: u32)
    ensures
        final(s)@ == old(s)@ + dec_digits(n as nat),
    decreases n,
{
    if n >= 10 {
        push_dec_u32(s, n / 10);
        s.append(digit_str((n % 10) as u8));
        assert(final(s)@ =~= old(s)@ + dec_digits(n as nat));
    } else {
        s.append(digit_str(n as u8));
    }
}

/// Appends the two-digit zero-padded rendering of `n` to `s`.
pub fn push_pad2(s: &mut String, n: u8)
    requires
        n < 100,
    ensures
        final(s)@ == old(s)@ + pad2_chars(n as nat),
{
    s.append(digit_str(n / 10));
    s.append(digit_str(n % 10));
    assert(final(s)@ =~= old(s)@ + pad2_chars(n as nat));
}

/// Appends the four-digit zero-padded rendering of `n` to `s`.
pub fn push_pad4(s: &mut String, n: u16)
    requires
        n < 10000,
    ensures
        final(s)@ == old(s)@ + pad4_chars(n as nat),
{
    s.append(digit_str((n / 1000) as u8));
    s.append(digit_str(((n / 100) % 10) as u8));
    s.append(digit_str(((n / 10) % 10) as u8));
    s.append(digit_str((n % 10) as u8));
    assert(final(s)@ =~= old(s)@ + pad4_chars(n as nat));
}

/// Decimal rendering of a `u16` as a fresh string.
pub fn u16_dec_string(n: u16) -> (r: String)
    ensures
        r@ == dec_digits(n as nat),
{
    let mut s = String::new();
    push_dec_u32(&mut s, n as u32);
    proof {
        assert(s@ =~= dec_digits(n as nat));
    }
    s
}

/// Renders the fragment for an optional numeric parameter. `prefix` must be
/// the parameter name followed by `=`.
pub fn render_num_fragment(prefix: &str, v: Option<u16>) -> (r: String)
    ensures
        r@ == num_fragment(prefix@, v),
{
    match v {
        Some(n) => {
            let mut s = prefix.to_owned();
            push_dec_u32(&mut s, n as u32);
            s.append("&");
            s
        },
        None => String::new(),
    }
}

/// Renders the fragment for an optional text parameter. `prefix` must be
/// the parameter name followed by `=`.
pub fn render_text_fragment(prefix: &str, v: &Option<String>) -> (r: String)
    ensures
        r@ == text_fragment(prefix@, v.deep_view()),
{
    match v {
        Some(t) => {
            let mut s = prefix.to_owned();
            s.append(t.as_str());
            s.append("&");
            s
        },
        None => String::new(),
    }
}

/// Renders the pagination `size` fragment, silently dropping sizes outside
/// the range 1..=100.
pub fn render_size_fragment(size: Option<u16>) -> (r: String)
    ensures
        r@ == size_fragment(size),
{
    match size {
        Some(s) => {
            if 0 < s && s <= 100 {
                let mut f = "size=".to_owned();
                push_dec_u32(&mut f, s as u32);
                f.append("&");
                f
            } else {
                String::new()
            }
        },
        None => String::new(),
    }
}

/// Joins the given strings with commas, with no leading or trailing comma.
pub fn comma_join_strings(items: &Vec<String>) -> (r: String)
    ensures
        r@ == comma_join(items.deep_view()),
{
    let mut s = String::new();
    let mut i: usize = 0;
    proof {
        assert(items.deep_view().take(0) =~= Seq::<Seq<char>>::empty());
    }
    while i < items.len()
        invariant
            i <= items.len(),
            items.deep_view().len() == items.len(),
            forall|j: int| 0 <= j < items.len() ==> items.deep_view()[j] == items[j]@,
            s@ == comma_join(items.deep_view().take(i as int)),
        decreases items.len() - i,
    {
        if i > 0 {
            s.append(",");
            proof {
                reveal_strlit(",");
                assert(","@ =~= seq![',']);
            }
        }
        s.append(items[i].as_str());
        proof {
            lemma_comma_join_push(items.deep_view().take(i as int), items.deep_view()[i as int]);
            assert(items.deep_view().take(i as int).push(items.deep_view()[i as int])
                =~= items.deep_view().take(i + 1));
            assert(s@ =~= comma_join(items.deep_view().take(i + 1)));
        }
        i = i + 1;
    }
    proof {
        assert(items.deep_view().take(items.len() as int) =~= items.deep_view());
    }
    s
}

} // verus!
