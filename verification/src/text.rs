//! Small helpers on strings, stated over their character sequences.

use vstd::prelude::*;
use vstd::string::*;

verus! {

/// Whether two strings hold the same characters.
pub fn same(a: &str, b: &str) -> (eq: bool)
    ensures
        eq == (a@ == b@),
{
    let x = String::from_str(a);
    let y = String::from_str(b);
    x == y
}

/// An owned copy of an optional string.
pub fn clone_optional(s: &Option<String>) -> (copy: Option<String>)
    ensures
        copy.deep_view() == s.deep_view(),
{
    match s {
        Some(inner) => Some(inner.clone()),
        None => None,
    }
}

/// Copies a list of strings.
pub fn clone_strings(items: &Vec<String>) -> (copy: Vec<String>)
    ensures
        copy.deep_view() == items.deep_view(),
{
    let mut copy: Vec<String> = Vec::new();
    let mut i: usize = 0;
    while i < items.len()
        invariant
            i <= items.len(),
            copy.len() == i,
            forall|k: int| 0 <= k < i ==> copy[k]@ == items[k]@,
        decreases items.len() - i,
    {
        copy.push(items[i].clone());
        i += 1;
    }
    assert(copy.deep_view() =~= items.deep_view());
    copy
}

/// Moves the strings of `more` to the end of `list`.
pub fn append_strings(list: &mut Vec<String>, more: Vec<String>)
    ensures
        final(list).deep_view() == old(list).deep_view() + more.deep_view(),
{
    let ghost before = list.deep_view();
    let ghost added = more.deep_view();
    let mut more = more;
    list.append(&mut more);
    assert(list.deep_view() =~= before + added);
}

/// Whether a character would break the line of a table or begin a terminal
/// escape: a line feed, a carriage return, or the escape character.
pub open spec fn breaks_layout(c: char) -> bool {
    c == '\n' || c == '\r' || c == '\u{1b}'
}

/// Whether a text can stand in a cell of a table as it is.
pub open spec fn printable(text: Seq<char>) -> bool {
    forall|i: int| 0 <= i < text.len() ==> !breaks_layout(#[trigger] text[i])
}

/// What is shown of a text in a cell of a table: the text with a space in
/// place of every character that would break the layout.
pub open spec fn shown(text: Seq<char>) -> Seq<char> {
    text.map_values(|c: char| if breaks_layout(c) { ' ' } else { c })
}

/// What is shown can stand in a cell, and a text that can stand in a cell
/// is shown as it is.
pub proof fn lemma_shown(text: Seq<char>)
    ensures
        printable(shown(text)),
        shown(text).len() == text.len(),
        printable(text) ==> shown(text) == text,
{
    if printable(text) {
        assert(shown(text) =~= text);
    }
}

/// Whether a text can stand in a cell of a table as it is.
pub fn is_printable(text: &str) -> (yes: bool)
    ensures
        yes == printable(text@),
{
    for c in it: text.chars()
        invariant
            it.seq() == text@,
            forall|k: int| 0 <= k < it.index() ==> !breaks_layout(#[trigger] text@[k]),
    {
        if c == '\n' || c == '\r' || c == '\u{1b}' {
            assert(breaks_layout(text@[it.index() as int]));
            return false;
        }
    }
    true
}

/// Makes a text fit for a cell of a table.
pub fn show(text: &str) -> (fit: String)
    ensures
        fit@ == shown(text@),
        printable(fit@),
{
    proof {
        lemma_shown(text@);
    }
    if is_printable(text) {
        return String::from_str(text);
    }
    let len = text.unicode_len();
    let mut fit = String::new();
    let mut i: usize = 0;
    assert(fit@ =~= shown(text@.take(0)));
    while i < len
        invariant
            i <= len,
            len == text@.len(),
            fit@ == shown(text@.take(i as int)),
        decreases len - i,
    {
        let c = text.get_char(i);
        let ghost before = fit@;
        if c == '\n' || c == '\r' || c == '\u{1b}' {
            proof {
                reveal_strlit(" ");
            }
            fit.append(" ");
            assert(fit@ =~= before.push(' '));
        } else {
            fit.append(text.substring_char(i, i + 1));
            assert(fit@ =~= before.push(c));
        }
        assert(shown(text@.take(i as int + 1)) =~= shown(text@.take(i as int)).push(
            if breaks_layout(c) {
                ' '
            } else {
                c
            },
        ));
        i += 1;
    }
    assert(text@.take(len as int) =~= text@);
    fit
}

/// Whether `items` holds `wanted`.
pub fn contains(items: &Vec<String>, wanted: &str) -> (found: bool)
    ensures
        found == items.deep_view().contains(wanted@),
{
    let mut i: usize = 0;
    while i < items.len()
        invariant
            i <= items.len(),
            forall|k: int| 0 <= k < i ==> items[k]@ != wanted@,
        decreases items.len() - i,
    {
        if same(items[i].as_str(), wanted) {
            assert(items.deep_view()[i as int] == wanted@);
            return true;
        }
        i += 1;
    }
    false
}

/// The items of a list without repetition: each item where it first occurs.
pub open spec fn distinct(items: Seq<Seq<char>>) -> Seq<Seq<char>>
    decreases items.len(),
{
    if items.len() == 0 {
        Seq::empty()
    } else {
        let earlier = distinct(items.drop_last());
        if earlier.contains(items.last()) {
            earlier
        } else {
            earlier.push(items.last())
        }
    }
}

/// `distinct` repeats nothing, and holds exactly what the list holds.
pub proof fn lemma_distinct(items: Seq<Seq<char>>)
    ensures
        distinct(items).no_duplicates(),
        forall|item: Seq<char>| distinct(items).contains(item) <==> items.contains(item),
    decreases items.len(),
{
    if items.len() > 0 {
        let front = items.drop_last();
        let earlier = distinct(front);
        lemma_distinct(front);
        assert forall|item: Seq<char>| distinct(items).contains(item) <==> items.contains(
            item,
        ) by {
            if items.contains(item) {
                let i = choose|i: int| 0 <= i < items.len() && items[i] == item;
                if i < front.len() {
                    assert(front[i] == item);
                    assert(front.contains(item));
                    assert(earlier.contains(item));
                    let k = choose|k: int| 0 <= k < earlier.len() && earlier[k] == item;
                    assert(distinct(items)[k] == item);
                } else {
                    if earlier.contains(item) {
                    } else {
                        assert(distinct(items)[earlier.len() as int] == item);
                    }
                }
            }
            if distinct(items).contains(item) {
                let k = choose|k: int| 0 <= k < distinct(items).len() && distinct(items)[k] == item;
                if k < earlier.len() {
                    assert(earlier[k] == item);
                    assert(front.contains(item));
                    let i = choose|i: int| 0 <= i < front.len() && front[i] == item;
                    assert(items[i] == item);
                } else {
                    assert(items[items.len() - 1] == item);
                }
            }
        }
    }
}

/// Drops every item of a list that occurred before.
pub fn dedup(items: Vec<String>) -> (kept: Vec<String>)
    ensures
        kept.deep_view() == distinct(items.deep_view()),
{
    let mut kept: Vec<String> = Vec::new();
    let mut i: usize = 0;
    assert(items.deep_view().take(0) =~= Seq::empty());
    assert(kept.deep_view() =~= Seq::empty());
    while i < items.len()
        invariant
            i <= items.len(),
            kept.deep_view() == distinct(items.deep_view().take(i as int)),
        decreases items.len() - i,
    {
        let ghost before = kept.deep_view();
        proof {
            let upto = items.deep_view().take(i as int + 1);
            assert(upto.drop_last() =~= items.deep_view().take(i as int));
            assert(upto.last() == items[i as int]@);
        }
        if !contains(&kept, items[i].as_str()) {
            kept.push(items[i].clone());
            assert(kept.deep_view() =~= before.push(items[i as int]@));
        }
        i += 1;
    }
    assert(items.deep_view().take(items.len() as int) =~= items.deep_view());
    kept
}

/// The least index at which `keys` holds `key`, if it holds it at all.
pub open spec fn first_index(keys: Seq<Seq<char>>, key: Seq<char>) -> Option<int>
    decreases keys.len(),
{
    if keys.len() == 0 {
        None
    } else if keys[0] == key {
        Some(0)
    } else {
        match first_index(keys.drop_first(), key) {
            Some(i) => Some(i + 1),
            None => None,
        }
    }
}

/// `first_index` is `Some(i)` exactly when `i` is the first place of `key`,
/// and `None` exactly when `key` has no place.
pub proof fn lemma_first_index(keys: Seq<Seq<char>>, key: Seq<char>)
    ensures
        match first_index(keys, key) {
            Some(i) => 0 <= i < keys.len() && keys[i] == key && forall|j: int|
                0 <= j < i ==> keys[j] != key,
            None => forall|j: int| 0 <= j < keys.len() ==> keys[j] != key,
        },
    decreases keys.len(),
{
    if keys.len() > 0 && keys[0] != key {
        let rest = keys.drop_first();
        lemma_first_index(rest, key);
        match first_index(rest, key) {
            Some(i) => {
                assert forall|j: int| 0 <= j < i + 1 implies keys[j] != key by {
                    if j > 0 {
                        assert(rest[j - 1] == keys[j]);
                    }
                }
            },
            None => {
                assert forall|j: int| 0 <= j < keys.len() implies keys[j] != key by {
                    if j > 0 {
                        assert(rest[j - 1] == keys[j]);
                    }
                }
            },
        }
    }
}

/// The first place of `key` is the place before which it does not occur.
pub proof fn lemma_first_index_at(keys: Seq<Seq<char>>, key: Seq<char>, i: int)
    requires
        0 <= i < keys.len(),
        keys[i] == key,
        forall|j: int| 0 <= j < i ==> keys[j] != key,
    ensures
        first_index(keys, key) == Some(i),
{
    lemma_first_index(keys, key);
}

/// A key that occurs nowhere has no first place.
pub proof fn lemma_first_index_absent(keys: Seq<Seq<char>>, key: Seq<char>)
    requires
        forall|j: int| 0 <= j < keys.len() ==> keys[j] != key,
    ensures
        first_index(keys, key) is None,
{
    lemma_first_index(keys, key);
}

} // verus!
