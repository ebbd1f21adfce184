//! Text editing primitives and lists of text keys.
//!
//! A list of keys is a `Vec<String>`; contracts speak of it through
//! [`texts`], the sequence of the character sequences it holds.

use vstd::prelude::*;
use vstd::string::StringExecFns;

verus! {

/// `String::push` of the standard library: the character is appended at the
/// end and nothing else changes.
pub assume_specification[ String::push ](text: &mut String, ch: char)
    ensures
        final(text)@ == old(text)@.push(ch),
;

/// `String::pop` of the standard library: removes and returns the last
/// character, or returns `None` and changes nothing on an empty string.
pub assume_specification[ String::pop ](text: &mut String) -> (last: Option<char>)
    ensures
        old(text)@.len() > 0 ==> last == Some(old(text)@.last()) && final(text)@ == old(
            text,
        )@.drop_last(),
        old(text)@.len() == 0 ==> last.is_none() && final(text)@ == old(text)@,
;

/// `String::clear` of the standard library: the string is empty afterwards.
pub assume_specification[ String::clear ](text: &mut String)
    ensures
        final(text)@ == Seq::<char>::empty(),
;

/// The character sequences held by a list of strings, in order.
pub open spec fn texts(items: Seq<String>) -> Seq<Seq<char>> {
    Seq::new(items.len(), |i: int| items[i]@)
}

/// The character sequences of a list of string slices, in order.
pub open spec fn slices(items: Seq<&str>) -> Seq<Seq<char>> {
    Seq::new(items.len(), |i: int| items[i]@)
}

/// What is left of `items` once every occurrence of `key` is taken out.
pub open spec fn without(items: Seq<Seq<char>>, key: Seq<char>) -> Seq<Seq<char>> {
    items.filter(other_than(key))
}

/// The test that tells every text from `key`.
pub open spec fn other_than(key: Seq<char>) -> spec_fn(Seq<char>) -> bool {
    |t: Seq<char>| t != key
}

/// The test that tells the texts that `items` does not hold.
pub open spec fn absent_from(items: Seq<Seq<char>>) -> spec_fn(Seq<char>) -> bool {
    |t: Seq<char>| !items.contains(t)
}

/// The keys of `keys` that `items` lacks, in the order of `keys`.
pub open spec fn missing(items: Seq<Seq<char>>, keys: Seq<Seq<char>>) -> Seq<Seq<char>> {
    keys.filter(absent_from(items))
}

/// Whether `items` holds every key of `keys`.
pub open spec fn holds_all(items: Seq<Seq<char>>, keys: Seq<Seq<char>>) -> bool {
    forall|i: int| 0 <= i < keys.len() ==> items.contains(#[trigger] keys[i])
}

/// Flipping one key: taken out where present, appended where absent.
pub open spec fn toggled(items: Seq<Seq<char>>, key: Seq<char>) -> Seq<Seq<char>> {
    if items.contains(key) {
        without(items, key)
    } else {
        items.push(key)
    }
}

/// Flipping a whole group: cleared when every key of the group is present,
/// otherwise completed with the missing keys in the group's order.
pub open spec fn toggled_all(items: Seq<Seq<char>>, keys: Seq<Seq<char>>) -> Seq<Seq<char>> {
    if holds_all(items, keys) {
        Seq::empty()
    } else {
        items + missing(items, keys)
    }
}

/// Whether `key` occurs in `items`.
pub fn contains_text(items: &Vec<String>, key: &str) -> (found: bool)
    ensures
        found == texts(items@).contains(key@),
{
    let wanted = key.to_owned();
    let mut i: usize = 0;
    while i < items.len()
        invariant
            i <= items.len(),
            wanted@ == key@,
            forall|j: int| 0 <= j < i ==> texts(items@)[j] != key@,
        decreases items.len() - i,
    {
        if items[i] == wanted {
            assert(texts(items@)[i as int] == key@);
            return true;
        }
        i += 1;
    }
    false
}

/// Takes every occurrence of `key` out of `items`, keeping the order of the
/// rest.
pub fn remove_text(items: &mut Vec<String>, key: &str)
    ensures
        texts(final(items)@) == without(texts(old(items)@), key@),
{
    let wanted = key.to_owned();
    let mut kept: Vec<String> = Vec::new();
    let mut i: usize = 0;
    while i < items.len()
        invariant
            i <= items.len(),
            wanted@ == key@,
            texts(kept@) == without(texts(items@).take(i as int), key@),
        decreases items.len() - i,
    {
        let ghost before = texts(items@).take(i as int);
        let ghost after = texts(items@).take(i + 1);
        proof {
            reveal(Seq::filter);
            assert(after.drop_last() == before);
            assert(after.last() == items@[i as int]@);
        }
        if items[i] != wanted {
            let copy = items[i].clone();
            kept.push(copy);
            assert(texts(kept@) == without(before, key@).push(items@[i as int]@));
        }
        i += 1;
    }
    assert(texts(items@).take(i as int) == texts(items@));
    *items = kept;
}

/// Appends `key` to `items`.
pub fn push_text(items: &mut Vec<String>, key: &str)
    ensures
        texts(final(items)@) == texts(old(items)@).push(key@),
{
    items.push(key.to_owned());
    assert(texts(items@) == texts(old(items)@).push(key@));
}

/// Whether two texts are the same.
pub fn same_text(left: &str, right: &str) -> (same: bool)
    ensures
        same == (left@ == right@),
{
    left.to_owned() == right.to_owned()
}

/// The parts put one after the other with `separator` between each two.
pub open spec fn joined(parts: Seq<Seq<char>>, separator: Seq<char>) -> Seq<char>
    decreases parts.len(),
{
    if parts.len() == 0 {
        Seq::empty()
    } else if parts.len() == 1 {
        parts[0]
    } else {
        joined(parts.drop_last(), separator) + separator + parts.last()
    }
}

/// Joins the parts with `separator` between each two.
pub fn join_texts(parts: &Vec<String>, separator: &str) -> (whole: String)
    ensures
        whole@ == joined(texts(parts@), separator@),
{
    let mut whole = String::new();
    let mut i: usize = 0;
    assert(texts(parts@).take(0) == Seq::<Seq<char>>::empty());
    while i < parts.len()
        invariant
            i <= parts.len(),
            whole@ == joined(texts(parts@).take(i as int), separator@),
        decreases parts.len() - i,
    {
        let ghost shorter = texts(parts@).take(i as int);
        let ghost longer = texts(parts@).take(i + 1);
        assert(longer.drop_last() == shorter);
        assert(longer.last() == parts@[i as int]@);
        if i > 0 {
            whole.append(separator);
        } else {
            assert(whole@ + parts@[i as int]@ == parts@[i as int]@);
        }
        whole.append(parts[i].as_str());
        i += 1;
    }
    assert(texts(parts@).take(i as int) == texts(parts@));
    whole
}

/// An owned list holding the given keys in their order.
pub fn owned_texts(keys: &[&str]) -> (items: Vec<String>)
    ensures
        texts(items@) == slices(keys@),
{
    let mut items: Vec<String> = Vec::new();
    let mut i: usize = 0;
    assert(texts(items@) == slices(keys@).take(0));
    while i < keys.len()
        invariant
            i <= keys.len(),
            texts(items@) == slices(keys@).take(i as int),
        decreases keys.len() - i,
    {
        assert(slices(keys@).take(i + 1) == slices(keys@).take(i as int).push(keys@[i as int]@));
        push_text(&mut items, keys[i]);
        i += 1;
    }
    assert(slices(keys@).take(i as int) == slices(keys@));
    items
}

/// Flips `key` in `items`: every occurrence is taken out where it is
/// present, and it is appended where it is absent.
pub fn toggle_text(items: &mut Vec<String>, key: &str)
    ensures
        texts(final(items)@) == toggled(texts(old(items)@), key@),
{
    if contains_text(items, key) {
        remove_text(items, key);
    } else {
        push_text(items, key);
    }
}

/// Flips the whole group `keys` in `items`: the list is emptied where it
/// holds every key of the group, and otherwise the keys it lacks are
/// appended in the group's order.
pub fn toggle_all_texts(items: &mut Vec<String>, keys: &[&str])
    requires
        slices(keys@).no_duplicates(),
    ensures
        texts(final(items)@) == toggled_all(texts(old(items)@), slices(keys@)),
{
    let ghost start = texts(items@);
    let ghost group = slices(keys@);
    let mut complete = true;
    let mut i: usize = 0;
    while i < keys.len()
        invariant
            i <= keys.len(),
            group == slices(keys@),
            start == texts(items@),
            complete == holds_all(start, group.take(i as int)),
        decreases keys.len() - i,
    {
        let found = contains_text(items, keys[i]);
        proof {
            let shorter = group.take(i as int);
            let longer = group.take(i + 1);
            assert(longer[i as int] == keys@[i as int]@);
            assert forall|j: int| 0 <= j < shorter.len() implies shorter[j] == longer[j] by {}
            if holds_all(start, longer) {
                assert forall|j: int| 0 <= j < shorter.len() implies start.contains(
                    #[trigger] shorter[j],
                ) by {
                    assert(start.contains(longer[j]));
                }
            }
        }
        if !found {
            complete = false;
        }
        i += 1;
    }
    assert(group.take(i as int) == group);
    if complete {
        *items = Vec::new();
        assert(texts(items@) == Seq::<Seq<char>>::empty());
    } else {
        let mut k: usize = 0;
        while k < keys.len()
            invariant
                k <= keys.len(),
                group == slices(keys@),
                group.no_duplicates(),
                texts(items@) == start + missing(start, group.take(k as int)),
            decreases keys.len() - k,
        {
            let ghost seen = group.take(k as int);
            let ghost key = group[k as int];
            proof {
                assert(key == keys@[k as int]@);
                assert(group.take(k + 1) == seen.push(key));
                seen.lemma_filter_push(key, absent_from(start));
                if missing(start, seen).contains(key) {
                    seen.lemma_filter_contains_rev(absent_from(start), key);
                    let at = choose|at: int| 0 <= at < seen.len() && seen[at] == key;
                    assert(group[at] == group[k as int]);
                }
                lemma_contains_add(start, missing(start, seen), key);
            }
            if !contains_text(items, keys[k]) {
                push_text(items, keys[k]);
                assert(texts(items@) == start + missing(start, seen).push(key));
            }
            k += 1;
        }
        assert(group.take(k as int) == group);
    }
}

/// A concatenation holds what either part holds.
pub proof fn lemma_contains_add(front: Seq<Seq<char>>, back: Seq<Seq<char>>, key: Seq<char>)
    ensures
        (front + back).contains(key) <==> front.contains(key) || back.contains(key),
{
    let whole = front + back;
    if front.contains(key) {
        let i = choose|i: int| 0 <= i < front.len() && front[i] == key;
        assert(whole[i] == key);
    }
    if back.contains(key) {
        let i = choose|i: int| 0 <= i < back.len() && back[i] == key;
        assert(whole[front.len() + i] == key);
    }
    if whole.contains(key) {
        let i = choose|i: int| 0 <= i < whole.len() && whole[i] == key;
        if i < front.len() {
            assert(front[i] == key);
        } else {
            assert(back[i - front.len()] == key);
        }
    }
}

/// Taking `key` out of a list leaves exactly the other texts it held.
pub proof fn lemma_without_contains(items: Seq<Seq<char>>, key: Seq<char>, other: Seq<char>)
    ensures
        without(items, key).contains(other) <==> items.contains(other) && other != key,
{
    let keep = other_than(key);
    if without(items, key).contains(other) {
        items.lemma_filter_contains_rev(keep, other);
        let kept = without(items, key);
        let i = choose|i: int| 0 <= i < kept.len() && kept[i] == other;
        items.lemma_filter_pred(keep, i);
    }
    if items.contains(other) && other != key {
        let i = choose|i: int| 0 <= i < items.len() && items[i] == other;
        items.lemma_filter_contains(keep, i);
    }
}

/// Taking a key out of a list without repetitions leaves a list without
/// repetitions.
pub proof fn lemma_without_no_duplicates(items: Seq<Seq<char>>, key: Seq<char>)
    requires
        items.no_duplicates(),
    ensures
        without(items, key).no_duplicates(),
    decreases items.len(),
{
    reveal(Seq::filter);
    if items.len() > 0 {
        let front = items.drop_last();
        let last = items.last();
        lemma_without_no_duplicates(front, key);
        if last != key {
            lemma_without_contains(front, key, last);
            if front.contains(last) {
                let i = choose|i: int| 0 <= i < front.len() && front[i] == last;
                assert(items[i] == items[items.len() - 1]);
            }
            let kept = without(front, key);
            assert forall|a: int, b: int|
                0 <= a < kept.len() + 1 && 0 <= b < kept.len() + 1 && a != b implies kept.push(
                last,
            )[a] != kept.push(last)[b] by {
                if a < kept.len() && b < kept.len() {
                } else if a < kept.len() {
                    assert(kept.contains(kept[a]));
                } else {
                    assert(kept.contains(kept[b]));
                }
            }
        }
    }
}

/// Flipping one key flips its membership and no other, and never makes a
/// text occur twice.
pub proof fn lemma_toggled_flips_one(items: Seq<Seq<char>>, key: Seq<char>)
    ensures
        toggled(items, key).contains(key) <==> !items.contains(key),
        forall|other: Seq<char>|
            other != key ==> (#[trigger] toggled(items, key).contains(other) <==> items.contains(
                other,
            )),
        items.no_duplicates() ==> toggled(items, key).no_duplicates(),
{
    if items.contains(key) {
        lemma_without_contains(items, key, key);
        assert forall|other: Seq<char>| other != key implies (#[trigger] toggled(
            items,
            key,
        ).contains(other) <==> items.contains(other)) by {
            lemma_without_contains(items, key, other);
        }
        if items.no_duplicates() {
            lemma_without_no_duplicates(items, key);
        }
    } else {
        assert(items.push(key) == items + seq![key]);
        assert(seq![key][0] == key);
        lemma_contains_add(items, seq![key], key);
        assert forall|other: Seq<char>| other != key implies (#[trigger] toggled(
            items,
            key,
        ).contains(other) <==> items.contains(other)) by {
            lemma_contains_add(items, seq![key], other);
            if seq![key].contains(other) {
                let i = choose|i: int| 0 <= i < seq![key].len() && seq![key][i] == other;
            }
        }
        if items.no_duplicates() {
            assert forall|a: int, b: int|
                0 <= a < items.len() + 1 && 0 <= b < items.len() + 1 && a != b implies items.push(
                key,
            )[a] != items.push(key)[b] by {
                if a < items.len() && b < items.len() {
                } else if a < items.len() {
                    assert(items.contains(items[a]));
                } else {
                    assert(items.contains(items[b]));
                }
            }
        }
    }
}

/// The keys a list lacks are keys of the group that the list does not hold,
/// each once where the group holds each once.
pub proof fn lemma_missing_contains(items: Seq<Seq<char>>, keys: Seq<Seq<char>>, key: Seq<char>)
    ensures
        missing(items, keys).contains(key) <==> keys.contains(key) && !items.contains(key),
{
    let lacks = absent_from(items);
    if missing(items, keys).contains(key) {
        keys.lemma_filter_contains_rev(lacks, key);
        let lacking = missing(items, keys);
        let i = choose|i: int| 0 <= i < lacking.len() && lacking[i] == key;
        keys.lemma_filter_pred(lacks, i);
    }
    if keys.contains(key) && !items.contains(key) {
        let i = choose|i: int| 0 <= i < keys.len() && keys[i] == key;
        keys.lemma_filter_contains(lacks, i);
    }
}

/// The keys that a list lacks occur once each where the group's keys do.
pub proof fn lemma_missing_no_duplicates(items: Seq<Seq<char>>, keys: Seq<Seq<char>>)
    requires
        keys.no_duplicates(),
    ensures
        missing(items, keys).no_duplicates(),
    decreases keys.len(),
{
    reveal(Seq::filter);
    if keys.len() > 0 {
        let front = keys.drop_last();
        let last = keys.last();
        lemma_missing_no_duplicates(items, front);
        if !items.contains(last) {
            lemma_missing_contains(items, front, last);
            if front.contains(last) {
                let i = choose|i: int| 0 <= i < front.len() && front[i] == last;
                assert(keys[i] == keys[keys.len() - 1]);
            }
            let kept = missing(items, front);
            assert forall|a: int, b: int|
                0 <= a < kept.len() + 1 && 0 <= b < kept.len() + 1 && a != b implies kept.push(
                last,
            )[a] != kept.push(last)[b] by {
                if a < kept.len() && b < kept.len() {
                } else if a < kept.len() {
                    assert(kept.contains(kept[a]));
                } else {
                    assert(kept.contains(kept[b]));
                }
            }
        }
    }
}

/// Flipping a whole group empties a list that holds the whole group; a
/// list that lacks some key of the group comes out holding what it held and
/// the whole group, and nothing else, with no text made to occur twice.
pub proof fn lemma_toggled_all_completes_or_clears(items: Seq<Seq<char>>, keys: Seq<Seq<char>>)
    requires
        keys.no_duplicates(),
    ensures
        holds_all(items, keys) ==> toggled_all(items, keys) == Seq::<Seq<char>>::empty(),
        !holds_all(items, keys) ==> holds_all(toggled_all(items, keys), keys),
        !holds_all(items, keys) ==> forall|t: Seq<char>| #[trigger]
            toggled_all(items, keys).contains(t) <==> items.contains(t) || keys.contains(t),
        !holds_all(items, keys) && items.no_duplicates() ==> toggled_all(
            items,
            keys,
        ).no_duplicates(),
{
    if !holds_all(items, keys) {
        let extra = missing(items, keys);
        let full = items + extra;
        assert forall|t: Seq<char>| #[trigger] full.contains(t) <==> items.contains(t)
            || keys.contains(t) by {
            lemma_contains_add(items, extra, t);
            lemma_missing_contains(items, keys, t);
        }
        assert forall|i: int| 0 <= i < keys.len() implies full.contains(#[trigger] keys[i]) by {
            assert(keys.contains(keys[i]));
        }
        if items.no_duplicates() {
            lemma_missing_no_duplicates(items, keys);
            assert forall|a: int, b: int|
                0 <= a < full.len() && 0 <= b < full.len() && a != b implies full[a]
                != full[b] by {
                if a < items.len() && b < items.len() {
                } else if a >= items.len() && b >= items.len() {
                    assert(extra[a - items.len()] != extra[b - items.len()]);
                } else if a < items.len() {
                    assert(items.contains(items[a]));
                    assert(extra.contains(extra[b - items.len()]));
                    lemma_missing_contains(items, keys, full[b]);
                } else {
                    assert(items.contains(items[b]));
                    assert(extra.contains(extra[a - items.len()]));
                    lemma_missing_contains(items, keys, full[a]);
                }
            }
        }
    }
}

/// Flipping a whole group twice in a row: an incomplete list is completed
/// and then emptied; a complete one is emptied and then holds exactly the
/// group, in the group's order.
pub proof fn lemma_toggled_all_twice(items: Seq<Seq<char>>, keys: Seq<Seq<char>>)
    requires
        keys.no_duplicates(),
        keys.len() > 0,
    ensures
        !holds_all(items, keys) ==> toggled_all(toggled_all(items, keys), keys) == Seq::<
            Seq<char>,
        >::empty(),
        holds_all(items, keys) ==> toggled_all(toggled_all(items, keys), keys) == keys,
{
    lemma_toggled_all_completes_or_clears(items, keys);
    if holds_all(items, keys) {
        let none = Seq::<Seq<char>>::empty();
        assert(!none.contains(keys[0]));
        assert(!holds_all(none, keys));
        lemma_missing_of_nothing(keys);
        assert(none + keys == keys);
    }
}

/// An empty list lacks every key of a group.
pub proof fn lemma_missing_of_nothing(keys: Seq<Seq<char>>)
    ensures
        missing(Seq::empty(), keys) == keys,
    decreases keys.len(),
{
    reveal(Seq::filter);
    if keys.len() > 0 {
        lemma_missing_of_nothing(keys.drop_last());
        assert(!Seq::<Seq<char>>::empty().contains(keys.last()));
        assert(keys.drop_last().push(keys.last()) == keys);
    }
}

} // verus!
