//! Text primitives the request and response logic is built from: joining a
//! list of items with a separator, finding an item in a list, finding a
//! pattern in a text, and comparing two texts.
//!
//! Every function is specified over `Seq<char>`, the view of a string.

use vstd::prelude::*;
use vstd::utf8::*;

verus! {

/// The items of `parts`, in order, with `sep` between each two neighbours.
pub open spec fn join(parts: Seq<Seq<char>>, sep: Seq<char>) -> Seq<char>
    decreases parts.len(),
{
    if parts.len() == 0 {
        Seq::empty()
    } else if parts.len() == 1 {
        parts[0]
    } else {
        join(parts.drop_last(), sep) + sep + parts.last()
    }
}

/// `pattern` stands in `text` at offset `at`.
pub open spec fn occurs_at(text: Seq<char>, pattern: Seq<char>, at: int) -> bool {
    &&& 0 <= at
    &&& at + pattern.len() <= text.len()
    &&& text.subrange(at, at + pattern.len()) == pattern
}

/// `pattern` stands somewhere in `text`.
pub open spec fn occurs_in(text: Seq<char>, pattern: Seq<char>) -> bool {
    exists|at: int| occurs_at(text, pattern, at)
}

/// The items of `text` when it is cut at every `sep`. A text without `sep`
/// is one item; the empty text is one empty item.
pub open spec fn split(text: Seq<char>, sep: char) -> Seq<Seq<char>>
    decreases text.len(),
{
    if text.len() == 0 {
        seq![Seq::empty()]
    } else {
        let before = split(text.drop_last(), sep);
        if text.last() == sep {
            before.push(Seq::empty())
        } else {
            before.update(before.len() - 1, before.last().push(text.last()))
        }
    }
}

/// `item` is exactly one element of `items`.
pub open spec fn occurs_once(items: Seq<Seq<char>>, item: Seq<char>) -> bool {
    exists|i: int|
        0 <= i < items.len() && items[i] == item && forall|j: int|
            0 <= j < items.len() && items[j] == item ==> j == i
}

/// `item` is at most one element of `items`.
pub open spec fn occurs_at_most_once(items: Seq<Seq<char>>, item: Seq<char>) -> bool {
    forall|i: int, j: int|
        0 <= i < items.len() && 0 <= j < items.len() && items[i] == item && items[j] == item
            ==> i == j
}

/// No element of `items` holds `sep`.
pub open spec fn free_of(items: Seq<Seq<char>>, sep: char) -> bool {
    forall|i: int| 0 <= i < items.len() ==> !(#[trigger] items[i]).contains(sep)
}

/// A text that holds no `sep` is a single item.
pub proof fn lemma_split_unbroken(text: Seq<char>, sep: char)
    requires
        !text.contains(sep),
    ensures
        split(text, sep) == seq![text],
    decreases text.len(),
{
    if text.len() > 0 {
        let init = text.drop_last();
        assert(text.last() == text[text.len() - 1]);
        assert forall|i: int| 0 <= i < init.len() implies init[i] != sep by {
            assert(init[i] == text[i]);
        }
        lemma_split_unbroken(init, sep);
        assert(init.push(text.last()) =~= text);
        assert(split(text, sep) =~= seq![text]);
    } else {
        assert(text =~= Seq::<char>::empty());
    }
}

/// An item without `sep`, put behind a text and one `sep`, is one more item
/// after the items of that text.
pub proof fn lemma_split_appended(head: Seq<char>, item: Seq<char>, sep: char)
    requires
        !item.contains(sep),
    ensures
        split(head + seq![sep] + item, sep) == split(head, sep).push(item),
    decreases item.len(),
{
    let text = head + seq![sep] + item;
    if item.len() == 0 {
        assert(text.last() == sep);
        assert(text.drop_last() =~= head);
        assert(item =~= Seq::<char>::empty());
    } else {
        let init = item.drop_last();
        assert(item.last() == item[item.len() - 1]);
        assert(text.last() == item.last());
        assert forall|i: int| 0 <= i < init.len() implies init[i] != sep by {
            assert(init[i] == item[i]);
        }
        lemma_split_appended(head, init, sep);
        assert(text.drop_last() =~= head + seq![sep] + init);
        assert(init.push(item.last()) =~= item);
        assert(split(text, sep) =~= split(head, sep).push(item));
    }
}

/// Cutting a joined list at the separator gives the list back, where the list
/// is not empty and none of its items holds the separator.
pub proof fn lemma_split_join(parts: Seq<Seq<char>>, sep: char)
    requires
        parts.len() > 0,
        free_of(parts, sep),
    ensures
        split(join(parts, seq![sep]), sep) == parts,
    decreases parts.len(),
{
    if parts.len() == 1 {
        lemma_split_unbroken(parts[0], sep);
        assert(seq![parts[0]] =~= parts);
    } else {
        let init = parts.drop_last();
        assert forall|i: int| 0 <= i < init.len() implies !(#[trigger] init[i]).contains(sep) by {
            assert(init[i] == parts[i]);
        }
        lemma_split_join(init, sep);
        lemma_split_appended(join(init, seq![sep]), parts.last(), sep);
        assert(init.push(parts.last()) =~= parts);
    }
}

/// Whether two texts are the same sequence of characters.
pub fn same_text(a: &str, b: &str) -> (same: bool)
    ensures
        same == (a@ == b@),
{
    broadcast use encode_utf8_decode_utf8;

    let x = a.as_bytes();
    let y = b.as_bytes();
    if x.len() != y.len() {
        return false;
    }
    let mut i: usize = 0;
    while i < x.len()
        invariant
            x@ == encode_utf8(a@),
            y@ == encode_utf8(b@),
            x@.len() == y@.len(),
            i <= x@.len(),
            forall|k: int| 0 <= k < i ==> x@[k] == y@[k],
        decreases x@.len() - i,
    {
        if x[i] != y[i] {
            return false;
        }
        i += 1;
    }
    assert(x@ =~= y@);
    assert(decode_utf8(encode_utf8(a@)) == decode_utf8(encode_utf8(b@)));
    true
}

/// Whether `item` is one of `items`.
pub fn has_item(items: &[&str], item: &str) -> (found: bool)
    ensures
        found == items.deep_view().contains(item@),
{
    let mut i: usize = 0;
    while i < items.len()
        invariant
            i <= items@.len(),
            forall|k: int| 0 <= k < i ==> items.deep_view()[k] != item@,
        decreases items@.len() - i,
    {
        if same_text(items[i], item) {
            assert(items.deep_view()[i as int] == item@);
            return true;
        }
        i += 1;
    }
    false
}

/// Joins `parts` with `sep` between each two neighbours.
pub fn join_with(parts: &[&str], sep: &str) -> (joined: String)
    ensures
        joined@ == join(parts.deep_view(), sep@),
{
    let mut joined = String::new();
    let mut i: usize = 0;
    while i < parts.len()
        invariant
            i <= parts@.len(),
            joined@ == join(parts.deep_view().take(i as int), sep@),
        decreases parts@.len() - i,
    {
        let ghost done = parts.deep_view().take(i as int);
        let ghost next = parts.deep_view().take(i + 1);
        assert(next.drop_last() =~= done);
        assert(next.last() == parts[i as int]@);
        if i > 0 {
            joined.append(sep);
        }
        joined.append(parts[i]);
        assert(joined@ =~= join(next, sep@));
        i += 1;
    }
    assert(parts.deep_view().take(i as int) =~= parts.deep_view());
    joined
}

/// The characters of `text`, one element each.
pub fn chars_of(text: &str) -> (chars: Vec<char>)
    ensures
        chars@ == text@,
{
    let mut chars: Vec<char> = Vec::new();
    for c in it: text.chars()
        invariant
            it.seq() == text@,
            chars@ == text@.take(it.index() as int),
    {
        chars.push(c);
    }
    chars
}

/// Whether `pattern` stands in `text` at offset `at`.
fn matches_at(text: &Vec<char>, pattern: &Vec<char>, at: usize) -> (found: bool)
    requires
        at + pattern@.len() <= text@.len(),
    ensures
        found == occurs_at(text@, pattern@, at as int),
{
    let len: usize = text.len();
    let mut k: usize = 0;
    while k < pattern.len()
        invariant
            len == text@.len(),
            at + pattern@.len() <= text@.len(),
            k <= pattern@.len(),
            forall|j: int| 0 <= j < k ==> text@[at + j] == pattern@[j],
        decreases pattern@.len() - k,
    {
        if text[at + k] != pattern[k] {
            assert(text@.subrange(at as int, at + pattern@.len())[k as int] != pattern@[k as int]);
            return false;
        }
        k += 1;
    }
    assert(text@.subrange(at as int, at + pattern@.len()) =~= pattern@);
    true
}

/// Whether `pattern` stands somewhere in `text`.
pub fn contains_text(text: &str, pattern: &str) -> (found: bool)
    ensures
        found == occurs_in(text@, pattern@),
{
    let hay = chars_of(text);
    let needle = chars_of(pattern);
    if needle.len() == 0 {
        assert(text@.subrange(0, 0) =~= pattern@);
        assert(occurs_at(text@, pattern@, 0));
        return true;
    }
    if needle.len() > hay.len() {
        return false;
    }
    let last: usize = hay.len() - needle.len();
    let mut at: usize = 0;
    while at <= last
        invariant
            last == hay@.len() - needle@.len(),
            last < usize::MAX,
            at <= last + 1,
            hay@ == text@,
            needle@ == pattern@,
            forall|k: int| 0 <= k < at ==> !occurs_at(text@, pattern@, k),
        decreases last + 1 - at,
    {
        if matches_at(&hay, &needle, at) {
            return true;
        }
        at += 1;
    }
    false
}

} // verus!
