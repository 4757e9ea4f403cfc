//! Small verified text-building helpers used by the diagnostic renderers:
//! decimal rendering of identifiers and line indenting of error messages.

use vstd::prelude::*;
use vstd::string::*;

verus! {

/// The character for one decimal digit.
pub open spec fn spec_digit(d: nat) -> char {
    if d == 0 {
        '0'
    } else if d == 1 {
        '1'
    } else if d == 2 {
        '2'
    } else if d == 3 {
        '3'
    } else if d == 4 {
        '4'
    } else if d == 5 {
        '5'
    } else if d == 6 {
        '6'
    } else if d == 7 {
        '7'
    } else if d == 8 {
        '8'
    } else {
        '9'
    }
}

/// The usual decimal rendering of a natural number, without leading zeros
/// (a single zero for the number zero).
pub open spec fn spec_decimal(n: nat) -> Seq<char>
    decreases n,
{
    if n < 10 {
        seq![spec_digit(n)]
    } else {
        spec_decimal(n / 10) + seq![spec_digit(n % 10)]
    }
}

/// Whether `c` is a decimal digit character.
pub open spec fn spec_is_digit(c: char) -> bool {
    c == '0' || c == '1' || c == '2' || c == '3' || c == '4' || c == '5' || c == '6' || c == '7'
        || c == '8' || c == '9'
}

/// A decimal rendering is never empty.
pub proof fn lemma_decimal_len_pos(n: nat)
    ensures
        spec_decimal(n).len() >= 1,
    decreases n,
{
    if n >= 10 {
        lemma_decimal_len_pos(n / 10);
    }
}

/// Whether every character of `s` is a decimal digit.
pub open spec fn all_digits(s: Seq<char>) -> bool {
    forall|i: int| 0 <= i < s.len() ==> spec_is_digit(#[trigger] s[i])
}

/// A decimal rendering consists of digit characters only.
pub proof fn lemma_decimal_digits(n: nat)
    ensures
        all_digits(spec_decimal(n)),
    decreases n,
{
    if n < 10 {
        assert(spec_is_digit(spec_digit(n)));
    } else {
        lemma_decimal_digits(n / 10);
        assert forall|i: int| 0 <= i < spec_decimal(n).len() implies spec_is_digit(
            #[trigger] spec_decimal(n)[i],
        ) by {
            if i < spec_decimal(n / 10).len() {
                assert(spec_decimal(n)[i] == spec_decimal(n / 10)[i]);
            } else {
                assert(spec_decimal(n)[i] == spec_digit(n % 10));
            }
        }
    }
}

/// Two numbers with the same decimal rendering are the same number.
pub proof fn lemma_decimal_injective(m: nat, n: nat)
    requires
        spec_decimal(m) == spec_decimal(n),
    ensures
        m == n,
    decreases m,
{
    if m < 10 && n < 10 {
        assert(spec_decimal(m)[0] == spec_digit(m));
        assert(spec_decimal(n)[0] == spec_digit(n));
    } else if m < 10 && n >= 10 {
        lemma_decimal_len_pos(n / 10);
        assert(spec_decimal(n).len() >= 2);
    } else if m >= 10 && n < 10 {
        lemma_decimal_len_pos(m / 10);
        assert(spec_decimal(m).len() >= 2);
    } else {
        let dm = spec_decimal(m / 10);
        let dn = spec_decimal(n / 10);
        assert(spec_decimal(m).last() == spec_digit(m % 10));
        assert(spec_decimal(n).last() == spec_digit(n % 10));
        assert(m % 10 == n % 10);
        assert(dm.len() == dn.len());
        assert(dm =~= dn) by {
            assert(forall|i: int|
                0 <= i < dm.len() ==> #[trigger] dm[i] == spec_decimal(m)[i] && dn[i]
                    == spec_decimal(n)[i]);
        }
        lemma_decimal_injective(m / 10, n / 10);
    }
}

fn digit_str(d: u64) -> (s: &'static str)
    requires
        d < 10,
    ensures
        s@ == seq![spec_digit(d as nat)],
{
    let s: &'static str = if d == 0 {
        "0"
    } else if d == 1 {
        "1"
    } else if d == 2 {
        "2"
    } else if d == 3 {
        "3"
    } else if d == 4 {
        "4"
    } else if d == 5 {
        "5"
    } else if d == 6 {
        "6"
    } else if d == 7 {
        "7"
    } else if d == 8 {
        "8"
    } else {
        "9"
    };
    proof {
        reveal_strlit("0");
        reveal_strlit("1");
        reveal_strlit("2");
        reveal_strlit("3");
        reveal_strlit("4");
        reveal_strlit("5");
        reveal_strlit("6");
        reveal_strlit("7");
        reveal_strlit("8");
        reveal_strlit("9");
        assert(s@ =~= seq![spec_digit(d as nat)]);
    }
    s
}

/// Appends the decimal rendering of `n`.
pub fn append_decimal(out: &mut String, n: u64)
    ensures
        final(out)@ == old(out)@ + spec_decimal(n as nat),
    decreases n,
{
    if n < 10 {
        out.append(digit_str(n));
    } else {
        append_decimal(out, n / 10);
        out.append(digit_str(n % 10));
        proof {
            assert(out@ =~= old(out)@ + spec_decimal(n as nat));
        }
    }
}

/// The decimal rendering of `n` as an owned string.
pub fn u64_to_string(n: u64) -> (r: String)
    ensures
        r@ == spec_decimal(n as nat),
{
    let mut out = String::new();
    append_decimal(&mut out, n);
    proof {
        assert(out@ =~= spec_decimal(n as nat));
    }
    out
}

/// `text` with `prefix` inserted at the start of every nonempty line;
/// empty lines and the line structure itself are kept unchanged.
pub open spec fn spec_indent_rec(prefix: Seq<char>, text: Seq<char>, at_line_start: bool) -> Seq<
    char,
>
    decreases text.len(),
{
    if text.len() == 0 {
        Seq::<char>::empty()
    } else {
        let head = text[0];
        let pre: Seq<char> = if at_line_start && head != '\n' {
            prefix
        } else {
            Seq::<char>::empty()
        };
        pre + seq![head] + spec_indent_rec(prefix, text.drop_first(), head == '\n')
    }
}

/// `text` with `prefix` inserted at the start of every nonempty line.
pub open spec fn spec_indent(prefix: Seq<char>, text: Seq<char>) -> Seq<char> {
    spec_indent_rec(prefix, text, true)
}

/// Indents every nonempty line of `text` with `prefix`.
pub fn indent(prefix: &str, text: &str) -> (r: String)
    ensures
        r@ == spec_indent(prefix@, text@),
{
    let n = text.unicode_len();
    let mut out = String::new();
    let mut at_start = true;
    let mut i: usize = 0;
    proof {
        assert(text@.skip(0) =~= text@);
        assert(out@ + spec_indent_rec(prefix@, text@, true) =~= spec_indent_rec(
            prefix@,
            text@,
            true,
        ));
    }
    while i < n
        invariant
            i <= n,
            n == text@.len(),
            spec_indent(prefix@, text@) == out@ + spec_indent_rec(
                prefix@,
                text@.skip(i as int),
                at_start,
            ),
        decreases n - i,
    {
        let c = text.get_char(i);
        if at_start && c != '\n' {
            out.append(prefix);
        }
        let piece = text.substring_char(i, i + 1);
        out.append(piece);
        proof {
            assert(text@.skip(i as int)[0] == text@[i as int]);
            assert(text@.skip(i as int).drop_first() =~= text@.skip(i as int + 1));
            assert(text@.subrange(i as int, i as int + 1) =~= seq![text@[i as int]]);
            assert(spec_indent(prefix@, text@) == out@ + spec_indent_rec(
                prefix@,
                text@.skip(i as int + 1),
                c == '\n',
            ));
        }
        at_start = c == '\n';
        i = i + 1;
    }
    proof {
        assert(text@.skip(n as int) =~= Seq::<char>::empty());
        assert(out@ + spec_indent_rec(prefix@, text@.skip(n as int), at_start) =~= out@);
    }
    out
}

} // verus!
