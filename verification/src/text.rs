use vstd::prelude::*;
use vstd::string::*;
use vstd::utf8::encode_utf8;

verus! {

/// Splits `s` the way a text is read line by line: every `'\n'` ends a line, a `'\r'` right before
/// that `'\n'` belongs to the line ending, and what follows the last `'\n'` is a last line when it
/// is not empty. The first component holds the finished lines, the second what follows the last
/// `'\n'`.
pub open spec fn split_newlines(s: Seq<char>) -> (Seq<Seq<char>>, Seq<char>)
    decreases s.len(),
{
    if s.len() == 0 {
        (Seq::empty(), Seq::empty())
    } else {
        let (done, cur) = split_newlines(s.drop_last());
        if s.last() == '\n' {
            (done.push(strip_carriage_return(cur)), Seq::empty())
        } else {
            (done, cur.push(s.last()))
        }
    }
}

/// Removes one `'\r'` at the end of a line, if there is one
pub open spec fn strip_carriage_return(line: Seq<char>) -> Seq<char> {
    if line.len() > 0 && line.last() == '\r' {
        line.drop_last()
    } else {
        line
    }
}

/// The lines of a text, without their line endings
pub open spec fn text_lines(s: Seq<char>) -> Seq<Seq<char>> {
    let (done, cur) = split_newlines(s);
    if cur.len() == 0 {
        done
    } else {
        done.push(cur)
    }
}

/// The number of bytes in the UTF-8 encoding of a line, as a string slice reports its length
pub open spec fn utf8_byte_len(line: Seq<char>) -> usize {
    encode_utf8(line).len() as usize
}

/// The number of characters of the longest line, zero when there are no lines
pub open spec fn longest_line_len(lines: Seq<Seq<char>>) -> nat
    decreases lines.len(),
{
    if lines.len() == 0 {
        0
    } else {
        let prev = longest_line_len(lines.drop_last());
        if lines.last().len() > prev {
            lines.last().len()
        } else {
            prev
        }
    }
}

/// Splits a text into its lines (`str::lines`), which the returned slices hold in order.
#[verifier::external_body]
pub(crate) fn split_lines(text: &str) -> (lines: Vec<&str>)
    ensures
        lines@.len() == text_lines(text@).len(),
        forall|i: int| 0 <= i < lines@.len() ==> #[trigger] lines@[i]@ == text_lines(text@)[i],
{
    text.lines().collect()
}

/// The character of a decimal digit
pub open spec fn digit_char(d: nat) -> char {
    ((d + 48) as u8) as char
}

/// The decimal digits that write a natural number, without leading zeros
pub open spec fn decimal_digits(n: nat) -> Seq<char>
    decreases n,
{
    if n < 10 {
        seq![digit_char(n)]
    } else {
        decimal_digits(n / 10).push(digit_char(n % 10))
    }
}

/// How an integer is written in decimal: a minus sign before the digits of a negative number
pub open spec fn signed_decimal(n: int) -> Seq<char> {
    if n < 0 {
        seq!['-'] + decimal_digits((-n) as nat)
    } else {
        decimal_digits(n as nat)
    }
}

/// Appends a character to a string (`String::push`)
#[verifier::external_body]
pub(crate) fn string_push(s: &mut String, ch: char)
    ensures
        final(s)@ == old(s)@.push(ch),
{
    s.push(ch)
}

/// Appends the decimal digits of `n` to `s`
fn push_decimal(s: &mut String, n: u64)
    ensures
        final(s)@ == old(s)@ + decimal_digits(n as nat),
    decreases n,
{
    if n >= 10 {
        push_decimal(s, n / 10);
    }
    let d: u8 = (n % 10) as u8;
    let ch: char = (d + 48u8) as char;
    string_push(s, ch);
    proof {
        assert(s@ =~= old(s)@ + decimal_digits(n as nat));
    }
}

/// Writes an unsigned number in decimal
pub fn u64_to_decimal(n: u64) -> (r: String)
    ensures
        r@ == decimal_digits(n as nat),
{
    let mut s = String::new();
    push_decimal(&mut s, n);
    proof {
        assert(s@ =~= decimal_digits(n as nat));
    }
    s
}

/// Writes a signed number in decimal
pub fn i64_to_decimal(n: i64) -> (r: String)
    ensures
        r@ == signed_decimal(n as int),
{
    let mut s = String::new();
    if n < 0 {
        string_push(&mut s, '-');
        let abs: u64 = (-(n as i128)) as u64;
        push_decimal(&mut s, abs);
        proof {
            assert(s@ =~= signed_decimal(n as int));
        }
    } else {
        push_decimal(&mut s, n as u64);
        proof {
            assert(s@ =~= signed_decimal(n as int));
        }
    }
    s
}

/// The extended grapheme clusters of a text, in order
pub uninterp spec fn extended_graphemes(s: Seq<char>) -> Seq<Seq<char>>;

/// Splits a text into its extended grapheme clusters
/// (`UnicodeSegmentation::graphemes` with `is_extended` set). The contract names the clusters
/// `extended_graphemes` and states what the crate's iterator shows of them: each is a non-empty
/// piece of the text, and in order they make up the whole text. Where the cluster boundaries
/// fall is not stated.
#[verifier::external_body]
pub(crate) fn graphemes(text: &str) -> (g: Vec<&str>)
    ensures
        g@.len() == extended_graphemes(text@).len(),
        forall|i: int| 0 <= i < g@.len() ==> #[trigger] g@[i]@ == extended_graphemes(text@)[i],
        g@.map_values(|piece: &str| piece@).flatten() == text@,
        forall|i: int| 0 <= i < g@.len() ==> (#[trigger] g@[i])@.len() > 0,
{
    unicode_segmentation::UnicodeSegmentation::graphemes(text, true).collect()
}

/// The text made of the first `n` extended grapheme clusters of `s` (all of them when there are
/// fewer)
pub open spec fn first_graphemes(s: Seq<char>, n: nat) -> Seq<char> {
    let g = extended_graphemes(s);
    if n >= g.len() {
        g.flatten()
    } else {
        g.take(n as int).flatten()
    }
}

/// Keeps the first `n` extended grapheme clusters of a text, which are the start of the text
pub fn take_graphemes(text: &str, n: usize) -> (r: String)
    ensures
        r@ == first_graphemes(text@, n as nat),
        r@.len() <= text@.len(),
        r@ == text@.take(r@.len() as int),
{
    let g = graphemes(text);
    let ghost all = extended_graphemes(text@);
    let mut out = String::new();
    let mut i: usize = 0;
    while i < g.len() && i < n
        invariant
            i <= g@.len(),
            i <= n,
            g@.len() == all.len(),
            forall|j: int| 0 <= j < g@.len() ==> #[trigger] g@[j]@ == all[j],
            out@ == all.take(i as int).flatten(),
        decreases g@.len() - i,
    {
        let piece: &str = g[i];
        out.append(piece);
        proof {
            assert(all.take(i + 1) =~= all.take(i as int).push(all[i as int]));
            all.take(i as int).lemma_flatten_push(all[i as int]);
        }
        i = i + 1;
    }
    proof {
        if i == g.len() {
            assert(all.take(i as int) =~= all);
        }
        assert(all =~= g@.map_values(|piece: &str| piece@));
        assert(all =~= all.take(i as int) + all.skip(i as int));
        vstd::seq_lib::lemma_flatten_concat(all.take(i as int), all.skip(i as int));
        assert(text@ =~= out@ + all.skip(i as int).flatten());
        assert(text@.take(out@.len() as int) =~= out@);
    }
    out
}

} // verus!
