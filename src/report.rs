//! The text printed for one invocation.
//!
//! Where one or more counting flags are set, the selected counts are printed
//! in the fixed column order lines, words, characters, bytes, separated by
//! tabs and ended by a newline. Where none is set, the line, word and
//! character counts are printed, then the source's name (empty for standard
//! input), all separated by tabs and ended by a newline.
use vstd::prelude::*;
use crate::counts::{
    get_byte_count, get_char_count, get_line_count, get_word_count, newline_count, utf8_len,
    word_count,
};
use crate::resolve::RWCArgs;

verus! {

/// The decimal digit for `d`, which is below ten.
pub open spec fn digit_char(d: nat) -> char {
    ((d + 48) as u8) as char
}

/// The decimal representation of `n`, without leading zeros.
pub open spec fn decimal(n: nat) -> Seq<char>
    decreases n,
{
    if n < 10 {
        seq![digit_char(n)]
    } else {
        decimal(n / 10).push(digit_char(n % 10))
    }
}

/// Relies on String::push: appends one character to the string.
#[verifier::external_body]
fn push_char(s: &mut String, c: char)
    ensures
        final(s)@ == old(s)@.push(c),
{
    s.push(c);
}

/// Writes `n` in decimal.
pub fn decimal_string(n: usize) -> (r: String)
    ensures
        r@ == decimal(n as nat),
{
    // Digits from the least significant one.
    let mut digits: Vec<char> = Vec::new();
    let mut m: usize = n;
    loop
        invariant_except_break
            decimal(n as nat) == decimal(m as nat) + digits@.reverse(),
        ensures
            decimal(n as nat) == digits@.reverse(),
        decreases m,
    {
        let d = m % 10;
        let c = ((d + 48) as u8) as char;
        proof {
            if m >= 10 {
                assert(decimal(m as nat) == decimal((m / 10) as nat).push(c));
                assert(digits@.push(c).reverse() =~= seq![c] + digits@.reverse());
                assert(decimal(m as nat) + digits@.reverse() =~= decimal((m / 10) as nat) + digits@.push(c).reverse());
            } else {
                assert(decimal(m as nat) == seq![c]);
                assert(digits@.push(c).reverse() =~= seq![c] + digits@.reverse());
            }
        }
        digits.push(c);
        if m < 10 {
            break;
        }
        m = m / 10;
    }
    let mut r = String::new();
    let mut i: usize = digits.len();
    while i > 0
        invariant
            i <= digits.len(),
            r@ == digits@.subrange(i as int, digits.len() as int).reverse(),
        decreases i,
    {
        i = i - 1;
        proof {
            assert(digits@.subrange(i as int, digits.len() as int).reverse() =~= digits@.subrange(
                (i + 1) as int,
                digits.len() as int,
            ).reverse().push(digits@[i as int]));
        }
        push_char(&mut r, digits[i]);
    }
    proof {
        assert(digits@.subrange(0, digits.len() as int) =~= digits@);
    }
    r
}

/// `text` with a column for `n` added where `on` holds, after a tab unless
/// it is the first column.
pub open spec fn with_column(text: Seq<char>, on: bool, n: nat) -> Seq<char> {
    if !on {
        text
    } else if text.len() == 0 {
        decimal(n)
    } else {
        text + seq!['\t'] + decimal(n)
    }
}

/// The name printed for the source: the path given, or nothing for
/// standard input.
pub open spec fn source_name(args: RWCArgs) -> Seq<char> {
    match args.source {
        Some(p) => p@,
        None => Seq::empty(),
    }
}

/// Whether any counting flag is set.
pub open spec fn any_selected(args: RWCArgs) -> bool {
    args.lines || args.words || args.chars || args.bytes
}

/// What is printed for buffer `s` under options `args`.
pub open spec fn report_text(args: RWCArgs, s: Seq<char>) -> Seq<char> {
    if any_selected(args) {
        let t = with_column(Seq::empty(), args.lines, newline_count(s));
        let t = with_column(t, args.words, word_count(s));
        let t = with_column(t, args.chars, s.len());
        let t = with_column(t, args.bytes, utf8_len(s));
        t + seq!['\n']
    } else {
        decimal(newline_count(s)) + seq!['\t'] + decimal(word_count(s)) + seq!['\t'] + decimal(
            s.len(),
        ) + seq!['\t'] + source_name(args) + seq!['\n']
    }
}

fn add_column(text: &mut String, on: bool, n: usize)
    ensures
        final(text)@ == with_column(old(text)@, on, n as nat),
{
    proof {
        reveal_strlit("\t");
        assert("\t"@ =~= seq!['\t']);
    }
    if on {
        let d = decimal_string(n);
        if text.as_str().is_empty() {
            text.append(d.as_str());
            assert(text@ =~= decimal(n as nat));
        } else {
            text.append("\t");
            text.append(d.as_str());
        }
    }
}

/// Renders the counts of `buffer` that `args` selects, as printed on
/// standard output.
pub fn render_report(args: &RWCArgs, buffer: &String) -> (r: String)
    ensures
        r@ == report_text(*args, buffer@),
{
    proof {
        reveal_strlit("\t");
        reveal_strlit("\n");
        assert("\t"@ =~= seq!['\t']);
        assert("\n"@ =~= seq!['\n']);
    }
    let lines = get_line_count(buffer);
    let words = get_word_count(buffer);
    let chars = get_char_count(buffer);
    let mut out = String::new();
    if args.lines || args.words || args.chars || args.bytes {
        let bytes = get_byte_count(buffer);
        add_column(&mut out, args.lines, lines);
        add_column(&mut out, args.words, words);
        add_column(&mut out, args.chars, chars);
        add_column(&mut out, args.bytes, bytes);
        out.append("\n");
    } else {
        let l = decimal_string(lines);
        let w = decimal_string(words);
        let c = decimal_string(chars);
        out.append(l.as_str());
        out.append("\t");
        out.append(w.as_str());
        out.append("\t");
        out.append(c.as_str());
        out.append("\t");
        match &args.source {
            Some(p) => out.append(p.as_str()),
            None => {},
        }
        out.append("\n");
        assert(out@ =~= report_text(*args, buffer@));
    }
    out
}

} // verus!
