//! Small pieces of text: decimal numbers and the search for a part of a text.

use vstd::prelude::*;

verus! {

/// The texts of a list of strings.
pub open spec fn texts(list: Seq<String>) -> Seq<Seq<char>> {
    list.map_values(|s: String| s@)
}

/// The decimal digit of a number below ten.
pub open spec fn digit(d: nat) -> char {
    ('0' as nat + d) as char
}

/// The decimal notation of a number, without leading zeros.
pub open spec fn decimal_text(n: nat) -> Seq<char>
    decreases n,
{
    if n < 10 {
        seq![digit(n)]
    } else {
        decimal_text(n / 10).push(digit(n % 10))
    }
}

/// Whether `needle` stands somewhere in `text`.
pub open spec fn occurs_in(needle: Seq<char>, text: Seq<char>) -> bool {
    exists|i: int|
        0 <= i <= text.len() - needle.len() && #[trigger] text.subrange(i, i + needle.len()) == needle
}

fn digit_str(d: u64) -> (res: &'static str)
    requires
        d < 10,
    ensures
        res@ == seq![digit(d as nat)],
{
    proof {
        reveal_strlit("0");
        reveal_strlit("1");
        reveal_strlit("2");
        reveal_strlit("3");
        reveal_strlit("4");
        reveal_strlit("5");
        reveal_strlit("6");
        reveal_strlit("7");
        reveal_strlit("8");
        reveal_strlit("9");
    }
    let res = match d {
        0 => "0",
        1 => "1",
        2 => "2",
        3 => "3",
        4 => "4",
        5 => "5",
        6 => "6",
        7 => "7",
        8 => "8",
        _ => "9",
    };
    assert(res@ =~= seq![digit(d as nat)]);
    res
}

/// Writes a number in decimal notation.
pub fn decimal(n: u64) -> (res: String)
    ensures
        res@ == decimal_text(n as nat),
    decreases n,
{
    if n < 10 {
        digit_str(n).to_owned()
    } else {
        let mut res = decimal(n / 10);
        let ghost head = res@;
        res.append(digit_str(n % 10));
        assert(res@ =~= head.push(digit((n % 10) as nat)));
        res
    }
}

fn chars_of(text: &str) -> (res: Vec<char>)
    ensures
        res@ == text@,
{
    let mut res: Vec<char> = Vec::new();
    for c in it: text.chars()
        invariant
            res@.len() == it.index(),
            forall|i: int| 0 <= i < res@.len() ==> res@[i] == it.seq()[i],
            it.seq() == text@,
    {
        res.push(c);
    }
    res
}

/// Whether `needle` stands somewhere in `text`.
pub fn contains_text(text: &str, needle: &str) -> (res: bool)
    ensures
        res == occurs_in(needle@, text@),
{
    let hay = chars_of(text);
    let pin = chars_of(needle);
    if pin.len() > hay.len() {
        return false;
    }
    let last: usize = hay.len() - pin.len();
    let mut i: usize = 0;
    while i <= last
        invariant
            hay@ == text@,
            pin@ == needle@,
            last == hay.len() - pin@.len(),
            i <= last + 1,
            forall|k: int| 0 <= k < i ==> #[trigger] hay@.subrange(k, k + pin@.len()) != pin@,
        decreases last + 1 - i,
    {
        let mut j: usize = 0;
        while j < pin.len() && hay[i + j] == pin[j]
            invariant
                i <= last,
                last == hay.len() - pin@.len(),
                j <= pin@.len(),
                forall|k: int| 0 <= k < j ==> hay@[i + k] == pin@[k],
            decreases pin@.len() - j,
        {
            j = j + 1;
        }
        if j == pin.len() {
            assert(hay@.subrange(i as int, i + pin@.len()) =~= pin@);
            return true;
        }
        assert(hay@.subrange(i as int, i + pin@.len())[j as int] != pin@[j as int]);
        if i == last {
            return false;
        }
        i = i + 1;
    }
    false
}

/// Different numbers have different decimal notations.
pub proof fn decimal_notation_is_unambiguous(m: nat, n: nat)
    requires
        decimal_text(m) == decimal_text(n),
    ensures
        m == n,
    decreases m,
{
    lemma_decimal_nonempty(m);
    lemma_decimal_nonempty(n);
    let text = decimal_text(m);
    assert(text.last() == digit(m % 10) && text.last() == digit(n % 10));
    assert(m % 10 == n % 10);
    if m < 10 {
        assert(text.len() == 1);
        if n >= 10 {
            lemma_decimal_nonempty(n / 10);
        }
    } else {
        if n < 10 {
            lemma_decimal_nonempty(m / 10);
        }
        assert(text.drop_last() =~= decimal_text(m / 10));
        assert(text.drop_last() =~= decimal_text(n / 10));
        decimal_notation_is_unambiguous(m / 10, n / 10);
    }
}

proof fn lemma_decimal_nonempty(n: nat)
    ensures
        decimal_text(n).len() > 0,
{
}

/// The texts of a list are those of its strings, each in its place.
pub proof fn each_string_has_its_text(list: Seq<String>)
    ensures
        texts(list).len() == list.len(),
        forall|i: int| 0 <= i < list.len() ==> #[trigger] texts(list)[i] == list[i]@,
{
}

/// The number that a row of decimal digits denotes.
pub open spec fn value_of(text: Seq<char>) -> int
    decreases text.len(),
{
    if text.len() == 0 {
        0
    } else {
        value_of(text.drop_last()) * 10 + (text.last() as int - '0' as int)
    }
}

/// What is written for a number denotes that number: it is a row of decimal digits that has its
/// value, and it does not begin with a zero unless it is one.
pub proof fn decimal_notation_has_the_value(n: nat)
    ensures
        value_of(decimal_text(n)) == n,
        decimal_text(n).len() > 0,
        forall|i: int|
            0 <= i < decimal_text(n).len() ==> '0' as int <= #[trigger] decimal_text(n)[i] as int
                && decimal_text(n)[i] as int <= '9' as int,
        n > 0 ==> decimal_text(n)[0] != '0',
        n == 0 ==> decimal_text(n) == seq!['0'],
    decreases n,
{
    let text = decimal_text(n);
    if n < 10 {
        assert(text.drop_last() =~= seq![]);
        assert(value_of(text.drop_last()) == 0);
    } else {
        decimal_notation_has_the_value(n / 10);
        assert(text.drop_last() =~= decimal_text(n / 10));
        assert(text[0] == decimal_text(n / 10)[0]);
        assert forall|i: int| 0 <= i < text.len() implies '0' as int <= #[trigger] text[i] as int
            && text[i] as int <= '9' as int by {
            if i < text.len() - 1 {
                assert(text[i] == decimal_text(n / 10)[i]);
            }
        }
    }
}

/// A text is found wherever it stands, whatever stands before and after it.
pub proof fn a_text_is_found_where_it_stands(before: Seq<char>, needle: Seq<char>, after: Seq<char>)
    ensures
        occurs_in(needle, before + needle + after),
{
    let text = before + needle + after;
    let i = before.len() as int;
    assert(text.subrange(i, i + needle.len()) =~= needle);
}

/// A text that is found stands there: what was searched is something, the text, and something more.
pub proof fn a_text_that_is_found_stands_there(needle: Seq<char>, text: Seq<char>)
    requires
        occurs_in(needle, text),
    ensures
        exists|before: Seq<char>, after: Seq<char>| text == #[trigger] (before + needle + after),
{
    let i = choose|i: int|
        0 <= i <= text.len() - needle.len() && #[trigger] text.subrange(i, i + needle.len())
            == needle;
    let before = text.take(i);
    let after = text.skip(i + needle.len());
    assert(text =~= before + text.subrange(i, i + needle.len()) + after);
    assert(text == before + needle + after);
}

} // verus!
