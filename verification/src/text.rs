use vstd::prelude::*;

verus! {

/// The characters of `s`, in order.
pub fn chars_of(s: &str) -> (chars: Vec<char>)
    ensures
        chars@ == s@,
{
    let mut chars: Vec<char> = Vec::new();
    for c in it: s.chars()
        invariant
            it.seq() == s@,
            chars@ == s@.take(it.index() as int),
    {
        chars.push(c);
        assert(s@.take(it.index() + 1) =~= s@.take(it.index() as int).push(c));
    }
    assert(s@.take(s@.len() as int) =~= s@);
    chars
}

/// Whether two texts hold the same characters.
pub fn same_text(a: &str, b: &str) -> (same: bool)
    ensures
        same == (a@ == b@),
{
    let x = chars_of(a);
    let y = chars_of(b);
    if x.len() != y.len() {
        return false;
    }
    let mut i: usize = 0;
    while i < x.len()
        invariant
            i <= x.len(),
            x.len() == y.len(),
            x@ == a@,
            y@ == b@,
            forall|j: int| 0 <= j < i ==> x@[j] == y@[j],
        decreases x.len() - i,
    {
        if x[i] != y[i] {
            return false;
        }
        i += 1;
    }
    assert(x@ =~= y@);
    true
}

/// `text` followed by a line break.
pub open spec fn line(text: Seq<char>) -> Seq<char> {
    text + "\n"@
}

/// `a` followed by `b`.
pub fn glue(a: &str, b: &str) -> (text: String)
    ensures
        text@ == a@ + b@,
{
    let mut text = a.to_owned();
    text.append(b);
    text
}

/// `text` followed by a line break.
pub fn line_of(text: &str) -> (out: String)
    ensures
        out@ == line(text@),
{
    glue(text, "\n")
}

/// Whether `text` begins with the character `c`.
pub fn starts_with(text: &str, c: char) -> (b: bool)
    ensures
        b == (text@.len() > 0 && text@[0] == c),
{
    let chars = chars_of(text);
    chars.len() > 0 && chars[0] == c
}

/// Whether `text` ends with the character `c`.
pub fn ends_with(text: &str, c: char) -> (b: bool)
    ensures
        b == (text@.len() > 0 && text@.last() == c),
{
    let chars = chars_of(text);
    chars.len() > 0 && chars[chars.len() - 1] == c
}

} // verus!
