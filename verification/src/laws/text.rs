//! What trimming, quoting and decimal rendering do to any text or number.
use crate::text::{
    decimal, digit_char, occurrences, occurrences_add, quote, quoted, trim_end, trim_start, trimmed,
    white_space,
};
use vstd::prelude::*;

verus! {

/// White space is the 25 code points that Unicode lists as such.
pub proof fn white_space_is_unicodes(c: char)
    ensures
        white_space(c) <==> {
            let code = c as int;
            ||| 0x9 <= code <= 0xd
            ||| code == 0x20
            ||| code == 0x85
            ||| code == 0xa0
            ||| code == 0x1680
            ||| 0x2000 <= code <= 0x200a
            ||| code == 0x2028
            ||| code == 0x2029
            ||| code == 0x202f
            ||| code == 0x205f
            ||| code == 0x3000
        },
{
}

/// Whether every character of `s` is white space.
spec fn blank(s: Seq<char>) -> bool {
    forall|i: int| 0 <= i < s.len() ==> white_space(#[trigger] s[i])
}

/// Trimming the start takes blank characters off it.
proof fn trim_start_splits(s: Seq<char>) -> (lead: Seq<char>)
    ensures
        blank(lead),
        s == lead + trim_start(s),
        trim_start(s).len() > 0 ==> !white_space(trim_start(s)[0]),
    decreases s.len(),
{
    if s.len() > 0 && white_space(s[0]) {
        let rest = trim_start_splits(s.drop_first());
        let lead = seq![s[0]] + rest;
        let tail = rest + trim_start(s);
        assert(tail == s.drop_first());
        assert(s =~= seq![s[0]] + tail);
        assert(s =~= lead + trim_start(s));
        lead
    } else {
        assert(s =~= Seq::<char>::empty() + s);
        seq![]
    }
}

/// Trimming the end takes blank characters off it.
proof fn trim_end_splits(s: Seq<char>) -> (trail: Seq<char>)
    ensures
        blank(trail),
        s == trim_end(s) + trail,
        trim_end(s).len() > 0 ==> !white_space(trim_end(s).last()),
    decreases s.len(),
{
    if s.len() > 0 && white_space(s.last()) {
        let rest = trim_end_splits(s.drop_last());
        let trail = rest.push(s.last());
        let head = trim_end(s) + rest;
        assert(head == s.drop_last());
        assert(s =~= head.push(s.last()));
        assert(s =~= trim_end(s) + trail);
        trail
    } else {
        assert(s =~= s + Seq::<char>::empty());
        seq![]
    }
}

/// Trimming takes white space off both ends and nothing else: what is left
/// stands in the text between two blank stretches, and neither starts nor
/// ends in white space.
pub proof fn trimming_takes_white_space_only(s: Seq<char>)
    ensures
        exists|lead: Seq<char>, trail: Seq<char>|
            {
                &&& s == #[trigger] (lead + trimmed(s) + trail)
                &&& forall|i: int| 0 <= i < lead.len() ==> white_space(#[trigger] lead[i])
                &&& forall|i: int| 0 <= i < trail.len() ==> white_space(#[trigger] trail[i])
            },
        trimmed(s).len() > 0 ==> !white_space(trimmed(s)[0]) && !white_space(trimmed(s).last()),
{
    let lead = trim_start_splits(s);
    let trail = trim_end_splits(trim_start(s));
    assert(s =~= lead + trimmed(s) + trail);
    if trimmed(s).len() > 0 {
        assert(trimmed(s)[0] == trim_start(s)[0]);
    }
}

/// What neither starts nor ends in white space is all that trimming leaves
/// of it, whatever white space stands round it.
pub proof fn trimming_keeps_the_core(lead: Seq<char>, core: Seq<char>, trail: Seq<char>)
    requires
        forall|i: int| 0 <= i < lead.len() ==> white_space(#[trigger] lead[i]),
        forall|i: int| 0 <= i < trail.len() ==> white_space(#[trigger] trail[i]),
        core.len() > 0 ==> !white_space(core[0]) && !white_space(core.last()),
    ensures
        trimmed(lead + core + trail) == core,
    decreases lead.len() + trail.len(),
{
    let s = lead + core + trail;
    if lead.len() > 0 {
        assert(s[0] == lead[0]);
        assert(s.drop_first() =~= lead.drop_first() + core + trail);
        assert forall|i: int| 0 <= i < lead.drop_first().len() implies white_space(
            #[trigger] lead.drop_first()[i],
        ) by {
            assert(lead[i + 1] == lead.drop_first()[i]);
        }
        trimming_keeps_the_core(lead.drop_first(), core, trail);
    } else if core.len() == 0 {
        assert(s =~= trail);
        if trail.len() > 0 {
            assert forall|i: int| 0 <= i < trail.drop_first().len() implies white_space(
                #[trigger] trail.drop_first()[i],
            ) by {
                assert(trail[i + 1] == trail.drop_first()[i]);
            }
            trimming_keeps_the_core(lead, core, trail.drop_first());
            assert(lead + core + trail.drop_first() =~= s.drop_first());
        } else {
            assert(trimmed(s) =~= core);
        }
    } else if trail.len() > 0 {
        assert(s[0] == core[0]);
        assert(s.last() == trail.last());
        assert(s.drop_last() =~= lead + core + trail.drop_last());
        assert(s.drop_last()[0] == core[0]);
        trimming_keeps_the_core(lead, core, trail.drop_last());
    } else {
        assert(s =~= core);
    }
}

/// Quoting goes character by character: a single quote becomes two, any
/// other character stays, and what stands side by side is quoted side by
/// side.
pub proof fn quoting_goes_by_character(c: char, a: Seq<char>, b: Seq<char>)
    ensures
        quoted(Seq::<char>::empty()) == Seq::<char>::empty(),
        quoted(seq![c]) == if c == '\'' {
            seq!['\'', '\'']
        } else {
            seq![c]
        },
        quoted(a + b) == quoted(a) + quoted(b),
    decreases b.len(),
{
    assert(seq![c].drop_last() =~= Seq::<char>::empty());
    assert(quoted(seq![c].drop_last()) =~= Seq::<char>::empty());
    if c == '\'' {
        assert(quoted(seq![c]) =~= seq!['\'', '\'']);
    } else {
        assert(quoted(seq![c]) =~= seq![c]);
    }
    if b.len() == 0 {
        assert(a + b =~= a);
        assert(quoted(a) + quoted(b) =~= quoted(a));
    } else {
        quoting_goes_by_character(c, a, b.drop_last());
        assert((a + b).drop_last() =~= a + b.drop_last());
        assert(quoted(a + b) =~= quoted(a) + quoted(b));
    }
}

/// `quote` gives back a text without quotes as it is, doubles a quote alone,
/// and of two texts written together gives what it gives of each.
pub proof fn quotes_are_doubled_one_by_one(
    whole: &str,
    a: &str,
    b: &str,
    r: String,
    of_a: String,
    of_b: String,
)
    requires
        call_ensures(quote, (whole,), r),
        call_ensures(quote, (a,), of_a),
        call_ensures(quote, (b,), of_b),
    ensures
        r@ == quoted(whole@),
        whole@ == seq!['\''] ==> r@ == seq!['\'', '\''],
        !whole@.contains('\'') ==> r@ == whole@,
        whole@ == a@ + b@ ==> r@ == of_a@ + of_b@,
{
    quoting_goes_by_character('\'', a@, b@);
    if !whole@.contains('\'') {
        unquoted_stays(whole@);
    }
}

/// A text without quotes is quoted as it is.
proof fn unquoted_stays(s: Seq<char>)
    requires
        !s.contains('\''),
    ensures
        quoted(s) == s,
    decreases s.len(),
{
    if s.len() > 0 {
        assert(s[s.len() - 1] != '\'');
        assert forall|i: int| 0 <= i < s.len() - 1 implies s.drop_last()[i] != '\'' by {
            assert(s[i] != '\'');
        }
        unquoted_stays(s.drop_last());
        assert(quoted(s) =~= s);
    }
}

/// A number below ten is its digit, and ten times a number plus a digit is
/// that number with the digit after it.
pub proof fn decimal_grows_by_digits(n: nat, digit: nat)
    requires
        digit < 10,
    ensures
        decimal(digit) == seq![(0x30 + digit) as char],
        n > 0 ==> decimal(10 * n + digit) == decimal(n).push((0x30 + digit) as char),
{
    assert(digit_char(digit) == (0x30 + digit) as char);
    if n > 0 {
        assert((10 * n + digit) / 10 == n);
        assert((10 * n + digit) % 10 == digit);
    }
}

/// Decimal digits are the ten from `0`, and no number but zero starts with
/// one that is `0`.
pub proof fn decimal_has_no_leading_zero(n: nat)
    ensures
        decimal(n).len() > 0,
        forall|i: int|
            0 <= i < decimal(n).len() ==> 0x30 <= (#[trigger] decimal(n)[i]) as int <= 0x39,
        decimal(n)[0] == '0' <==> n == 0,
    decreases n,
{
    if n >= 10 {
        decimal_has_no_leading_zero(n / 10);
        assert(decimal(n)[0] == decimal(n / 10)[0]);
    }
}

/// Counting goes element by element.
pub proof fn occurrences_go_by_element<T>(x: T, y: T, a: Seq<T>, b: Seq<T>)
    ensures
        occurrences(Seq::<T>::empty(), x) == 0,
        occurrences(seq![x], x) == 1,
        x != y ==> occurrences(seq![y], x) == 0,
        occurrences(a + b, x) == occurrences(a, x) + occurrences(b, x),
{
    assert(seq![x].drop_last() =~= seq![]);
    assert(seq![y].drop_last() =~= seq![]);
    occurrences_add(a, b, x);
}

} // verus!
