//! Case folding of addresses and selectors, and decimal numerals.
use vstd::prelude::*;
use vstd::string::*;

verus! {

/// What `str::to_lowercase` gives for a text (Unicode lowercase mapping).
pub uninterp spec fn lowercase_of(text: Seq<char>) -> Seq<char>;

/// ASCII case folding: `A`..`Z` become `a`..`z`, every other character stays.
pub open spec fn ascii_lower(c: char) -> char {
    if 'A' <= c <= 'Z' {
        ((c as u32) + 32) as char
    } else {
        c
    }
}

/// Calls `str::to_lowercase`. On an all-ASCII text the Unicode lowercase
/// mapping is the ASCII one, character by character; on other texts only
/// the name `lowercase_of` is stated.
#[verifier::external_body]
pub(crate) fn lowercase(text: &str) -> (r: String)
    ensures
        r@ == lowercase_of(text@),
        vstd::utf8::is_ascii_chars(text@) ==> r@ == text@.map_values(|c: char| ascii_lower(c)),
{
    text.to_lowercase()
}

/// The decimal digit for a value below ten.
pub open spec fn decimal_digit(d: nat) -> char {
    (48 + d) as char
}

/// The decimal numeral of a number, without leading zeros.
pub open spec fn decimal(n: nat) -> Seq<char>
    decreases n,
{
    if n < 10 {
        seq![decimal_digit(n)]
    } else {
        decimal(n / 10) + seq![decimal_digit(n % 10)]
    }
}

/// The numerals of a list of numbers, separated by `", "`.
pub open spec fn decimal_list(items: Seq<u128>) -> Seq<char>
    decreases items.len(),
{
    if items.len() == 0 {
        Seq::empty()
    } else if items.len() == 1 {
        decimal(items[0] as nat)
    } else {
        decimal_list(items.drop_last()) + ", "@ + decimal(items.last() as nat)
    }
}

/// The debug form of a list of numbers: `[`, the numerals separated by `", "`, `]`.
pub open spec fn list_text(items: Seq<u128>) -> Seq<char> {
    "["@ + decimal_list(items) + "]"@
}

fn digit_text(d: u128) -> (r: &'static str)
    requires
        d < 10,
    ensures
        r@ == seq![decimal_digit(d as nat)],
{
    proof {
        reveal_strlit("0");
        reveal_strlit("1");
        reveal_strlit("2");
        reveal_strlit("3");
        reveal_strlit("4");
        reveal_strlit("5");
        reveal_strlit("6");
        reveal_strlit("7");
        reveal_strlit("8");
        reveal_strlit("9");
    }
    let r = if d == 0 {
        "0"
    } else if d == 1 {
        "1"
    } else if d == 2 {
        "2"
    } else if d == 3 {
        "3"
    } else if d == 4 {
        "4"
    } else if d == 5 {
        "5"
    } else if d == 6 {
        "6"
    } else if d == 7 {
        "7"
    } else if d == 8 {
        "8"
    } else {
        "9"
    };
    assert(r@ =~= seq![decimal_digit(d as nat)]);
    r
}

/// Appends the decimal numeral of `n`.
pub fn append_decimal(out: &mut String, n: u128)
    ensures
        final(out)@ == old(out)@ + decimal(n as nat),
    decreases n,
{
    if n >= 10 {
        append_decimal(out, n / 10);
    }
    out.append(digit_text(n % 10));
    assert(out@ =~= old(out)@ + decimal(n as nat));
}

/// The debug form of a list of numbers, as `{:?}` writes it: `[1, 2, 3]`.
pub fn format_list(items: &Vec<u128>) -> (r: String)
    ensures
        r@ == list_text(items@),
{
    let mut out = String::from_str("[");
    let mut i: usize = 0;
    proof {
        assert(items@.take(0) =~= Seq::<u128>::empty());
    }
    while i < items.len()
        invariant
            i <= items@.len(),
            out@ == "["@ + decimal_list(items@.take(i as int)),
        decreases items@.len() - i,
    {
        let ghost before = out@;
        if i > 0 {
            out.append(", ");
        }
        append_decimal(&mut out, items[i]);
        proof {
            let next = items@.take(i + 1);
            assert(next.drop_last() =~= items@.take(i as int));
            assert(next.last() == items@[i as int]);
            if i == 0 {
                assert(out@ =~= "["@ + decimal_list(next));
            } else {
                assert(out@ =~= "["@ + decimal_list(next));
            }
        }
        i = i + 1;
    }
    out.append("]");
    proof {
        assert(items@.take(items@.len() as int) =~= items@);
    }
    out
}

} // verus!
