use vstd::prelude::*;
use crate::text::{chars_of, same_text};

verus! {

/// Where the segment that starts at `from` ends: the position of the first `/`
/// at or behind `from`, or the length of `s` when none follows.
pub open spec fn segment_end(s: Seq<char>, from: int) -> int
    decreases s.len() - from,
{
    if from < 0 || from >= s.len() || s[from] == '/' {
        from
    } else {
        segment_end(s, from + 1)
    }
}

/// The name under which `name` shows in a listing of the directory `prefix`:
/// the first segment of what follows `prefix`, and nothing for a name that
/// does not lie under `prefix`.
pub open spec fn child_name(name: Seq<char>, prefix: Seq<char>) -> Seq<char> {
    if prefix.is_prefix_of(name) {
        name.subrange(prefix.len() as int, segment_end(name, prefix.len() as int))
    } else {
        Seq::empty()
    }
}

/// The children of the directory `prefix` among `names`: each non-empty child
/// name once, in the order of first appearance.
pub open spec fn children(names: Seq<Seq<char>>, prefix: Seq<char>) -> Seq<Seq<char>>
    decreases names.len(),
{
    if names.len() == 0 {
        Seq::empty()
    } else {
        let before = children(names.drop_last(), prefix);
        let child = child_name(names.last(), prefix);
        if child.len() == 0 || before.contains(child) {
            before
        } else {
            before.push(child)
        }
    }
}

/// The items one after another, each followed by a blank.
pub open spec fn joined(items: Seq<Seq<char>>) -> Seq<char>
    decreases items.len(),
{
    if items.len() == 0 {
        Seq::empty()
    } else {
        joined(items.drop_last()) + items.last() + " "@
    }
}

/// The line that shows `items`: the items, each followed by a blank, and a
/// line break; nothing at all when there are no items.
pub open spec fn listing_text(items: Seq<Seq<char>>) -> Seq<char> {
    if items.len() == 0 {
        Seq::empty()
    } else {
        joined(items) + "\n"@
    }
}

/// `segment_end` stays within `s`, stops on a separator or at the end, and
/// passes over none.
pub proof fn lemma_segment_end(s: Seq<char>, from: int)
    requires
        0 <= from <= s.len(),
    ensures
        from <= segment_end(s, from) <= s.len(),
        segment_end(s, from) < s.len() ==> s[segment_end(s, from)] == '/',
        forall|j: int| from <= j < segment_end(s, from) ==> s[j] != '/',
    decreases s.len() - from,
{
    if from < s.len() && s[from] != '/' {
        lemma_segment_end(s, from + 1);
    }
}

/// The child name of `name` under the directory whose characters are `prefix`.
pub fn child_of<'a>(name: &'a str, prefix: &Vec<char>) -> (child: &'a str)
    ensures
        child@ == child_name(name@, prefix@),
{
    let chars = chars_of(name);
    let n = chars.len();
    let p = prefix.len();
    if n < p {
        return name.substring_char(0, 0);
    }
    let mut k: usize = 0;
    while k < p
        invariant
            k <= p <= n,
            n == chars@.len(),
            p == prefix@.len(),
            chars@ == name@,
            forall|j: int| 0 <= j < k ==> chars@[j] == prefix@[j],
        decreases p - k,
    {
        if chars[k] != prefix[k] {
            assert(name@.subrange(0, p as int)[k as int] != prefix@[k as int]);
            return name.substring_char(0, 0);
        }
        k += 1;
    }
    assert(prefix@ =~= name@.subrange(0, p as int));
    let mut end: usize = p;
    while end < n && chars[end] != '/'
        invariant
            p <= end <= n,
            n == chars@.len(),
            segment_end(chars@, p as int) == segment_end(chars@, end as int),
        decreases n - end,
    {
        end += 1;
    }
    name.substring_char(p, end)
}

/// Whether `items` holds the text `wanted`.
pub fn holds(items: &Vec<String>, wanted: &str) -> (found: bool)
    ensures
        found == items.deep_view().contains(wanted@),
{
    let mut i: usize = 0;
    while i < items.len()
        invariant
            i <= items.len(),
            forall|j: int| 0 <= j < i ==> items.deep_view()[j] != wanted@,
        decreases items.len() - i,
    {
        if same_text(items[i].as_str(), wanted) {
            assert(items.deep_view()[i as int] == wanted@);
            return true;
        }
        i += 1;
    }
    false
}

/// The children of the directory `prefix` among `names`.
pub fn list_children(names: &Vec<String>, prefix: &str) -> (found: Vec<String>)
    ensures
        found.deep_view() == children(names.deep_view(), prefix@),
{
    let pre = chars_of(prefix);
    let mut found: Vec<String> = Vec::new();
    let mut i: usize = 0;
    assert(names.deep_view().take(0) =~= Seq::<Seq<char>>::empty());
    assert(found.deep_view() =~= Seq::<Seq<char>>::empty());
    while i < names.len()
        invariant
            i <= names.len(),
            pre@ == prefix@,
            found.deep_view() == children(names.deep_view().take(i as int), prefix@),
        decreases names.len() - i,
    {
        let ghost before = found.deep_view();
        let child = child_of(names[i].as_str(), &pre);
        proof {
            let upto = names.deep_view().take(i + 1);
            assert(upto.drop_last() =~= names.deep_view().take(i as int));
            assert(upto.last() == names[i as int]@);
        }
        if !child.is_empty() && !holds(&found, child) {
            found.push(child.to_owned());
            assert(found.deep_view() =~= before.push(child@));
        }
        i += 1;
    }
    assert(names.deep_view().take(names.len() as int) =~= names.deep_view());
    found
}

/// The items one after another, each followed by a blank.
pub fn join(items: &Vec<String>) -> (text: String)
    ensures
        text@ == joined(items.deep_view()),
{
    let mut text = String::new();
    let mut i: usize = 0;
    assert(items.deep_view().take(0) =~= Seq::<Seq<char>>::empty());
    while i < items.len()
        invariant
            i <= items.len(),
            text@ == joined(items.deep_view().take(i as int)),
        decreases items.len() - i,
    {
        proof {
            let upto = items.deep_view().take(i + 1);
            assert(upto.drop_last() =~= items.deep_view().take(i as int));
            assert(upto.last() == items[i as int]@);
        }
        text.append(items[i].as_str());
        text.append(" ");
        i += 1;
    }
    assert(items.deep_view().take(items.len() as int) =~= items.deep_view());
    text
}

/// The line that shows `items`.
pub fn render(items: &Vec<String>) -> (text: String)
    ensures
        text@ == listing_text(items.deep_view()),
{
    if items.len() == 0 {
        return String::new();
    }
    let mut text = join(items);
    text.append("\n");
    text
}

} // verus!
