use vstd::prelude::*;
use vstd::string::StringExecFns;

verus! {

/// The decimal digit character for `d` (0..=9).
pub open spec fn digit_char(d: int) -> char {
    seq!['0', '1', '2', '3', '4', '5', '6', '7', '8', '9'][d]
}

/// Decimal notation of `n`, without leading zeros.
pub open spec fn decimal(n: nat) -> Seq<char>
    decreases n,
{
    if n < 10 {
        seq![digit_char(n as int)]
    } else {
        decimal(n / 10) + seq![digit_char((n % 10) as int)]
    }
}

/// `text` padded with spaces on the right to at least `width` characters.
pub open spec fn pad_right(text: Seq<char>, width: nat) -> Seq<char> {
    if text.len() >= width {
        text
    } else {
        text + Seq::new((width - text.len()) as nat, |i: int| ' ')
    }
}

/// `text` padded with spaces on the left to at least `width` characters.
pub open spec fn pad_left(text: Seq<char>, width: nat) -> Seq<char> {
    if text.len() >= width {
        text
    } else {
        Seq::new((width - text.len()) as nat, |i: int| ' ') + text
    }
}

fn digit_str(d: u32) -> (s: &'static str)
    requires
        d < 10,
    ensures
        s@ == seq![digit_char(d as int)],
{
    proof {
        reveal_strlit("0");
        reveal_strlit("1");
        reveal_strlit("2");
        reveal_strlit("3");
        reveal_strlit("4");
        reveal_strlit("5");
        reveal_strlit("6");
        reveal_strlit("7");
        reveal_strlit("8");
        reveal_strlit("9");
    }
    let s = if d == 0 {
        "0"
    } else if d == 1 {
        "1"
    } else if d == 2 {
        "2"
    } else if d == 3 {
        "3"
    } else if d == 4 {
        "4"
    } else if d == 5 {
        "5"
    } else if d == 6 {
        "6"
    } else if d == 7 {
        "7"
    } else if d == 8 {
        "8"
    } else {
        "9"
    };
    assert(s@ =~= seq![digit_char(d as int)]);
    s
}

/// Append the decimal notation of `n`.
pub fn push_decimal(out: &mut String, n: u64)
    ensures
        final(out)@ == old(out)@ + decimal(n as nat),
    decreases n,
{
    if n >= 10 {
        push_decimal(out, n / 10);
    }
    out.append(digit_str((n % 10) as u32));
    assert(final(out)@ =~= old(out)@ + decimal(n as nat));
}

/// Append `count` spaces.
pub fn push_spaces(out: &mut String, count: usize)
    ensures
        final(out)@ == old(out)@ + Seq::new(count as nat, |i: int| ' '),
{
    proof { reveal_strlit(" "); }
    let mut i: usize = 0;
    while i < count
        invariant
            i <= count,
            out@ =~= old(out)@ + Seq::new(i as nat, |k: int| ' '),
        decreases count - i,
    {
        proof { reveal_strlit(" "); }
        out.append(" ");
        i = i + 1;
    }
}

/// Number of characters of the decimal notation of `n`.
pub fn decimal_len(n: u32) -> (r: usize)
    ensures
        r == decimal(n as nat).len(),
        1 <= r <= n as int + 1,
    decreases n,
{
    if n >= 10 {
        decimal_len(n / 10) + 1
    } else {
        1
    }
}

/// Append `n` right-aligned in a field of `width` characters.
pub fn push_decimal_right(out: &mut String, n: u32, width: usize)
    ensures
        final(out)@ == old(out)@ + pad_left(decimal(n as nat), width as nat),
{
    let len = decimal_len(n);
    if len < width {
        push_spaces(out, width - len);
    }
    push_decimal(out, n as u64);
    assert(final(out)@ =~= old(out)@ + pad_left(decimal(n as nat), width as nat));
}

/// Append `text` left-aligned in a field of `width` characters.
pub fn push_str_left(out: &mut String, text: &str, width: usize)
    requires
        text@.len() <= usize::MAX,
    ensures
        final(out)@ == old(out)@ + pad_right(text@, width as nat),
{
    out.append(text);
    let len = text_len(text);
    if len < width {
        push_spaces(out, width - len);
    }
    assert(final(out)@ =~= old(out)@ + pad_right(text@, width as nat));
}

/// Number of characters (not bytes) in `text`.
pub fn text_len(text: &str) -> (r: usize)
    requires
        text@.len() <= usize::MAX,
    ensures
        r == text@.len(),
{
    text.unicode_len()
}

/// The character sequences of a list of strings.
pub open spec fn texts(lines: Seq<String>) -> Seq<Seq<char>> {
    Seq::new(lines.len(), |k: int| lines[k]@)
}

/// Pushing a string pushes its characters onto the text list.
pub proof fn lemma_texts_push(lines: Seq<String>, line: String)
    ensures
        texts(lines.push(line)) == texts(lines).push(line@),
{
    assert(texts(lines.push(line)) =~= texts(lines).push(line@));
}

/// Appending string lists appends their text lists.
pub proof fn lemma_texts_add(a: Seq<String>, b: Seq<String>)
    ensures
        texts(a + b) == texts(a) + texts(b),
{
    assert(texts(a + b) =~= texts(a) + texts(b));
}

/// `a`, `b` and `c` joined into one new string.
pub fn join3(a: &str, b: &str, c: &str) -> (s: String)
    ensures
        s@ == a@ + b@ + c@,
{
    let mut s = String::from_str(a);
    s.append(b);
    s.append(c);
    s
}

} // verus!
