//! Ordering by text.

use vstd::prelude::*;
use vstd::seq_lib::*;

use crate::text::chars_of;

verus! {

/// Whether `a` comes before `b`: at the first place where they differ `a` has the smaller
/// character, or `a` ends there.
pub open spec fn text_before(a: Seq<char>, b: Seq<char>) -> bool
    decreases a.len(),
{
    if b.len() == 0 {
        false
    } else if a.len() == 0 {
        true
    } else if a[0] != b[0] {
        a[0] < b[0]
    } else {
        text_before(a.skip(1), b.skip(1))
    }
}

/// No text comes before itself, and of two texts that differ one comes first.
pub proof fn lemma_text_before_total(a: Seq<char>, b: Seq<char>)
    ensures
        !(text_before(a, b) && text_before(b, a)),
        a == b <==> !text_before(a, b) && !text_before(b, a),
    decreases a.len(),
{
    if a.len() == 0 || b.len() == 0 {
        if a.len() == 0 && b.len() == 0 {
            assert(a =~= b);
        }
    } else if a[0] == b[0] {
        lemma_text_before_total(a.skip(1), b.skip(1));
        if a.skip(1) == b.skip(1) {
            assert(a =~= seq![a[0]] + a.skip(1));
            assert(b =~= seq![b[0]] + b.skip(1));
        }
    }
}

/// What comes before a text comes before everything that does not come before that text.
pub proof fn lemma_text_before_transitive(a: Seq<char>, b: Seq<char>, c: Seq<char>)
    requires
        text_before(a, b),
        !text_before(c, b),
    ensures
        text_before(a, c),
    decreases a.len(),
{
    lemma_text_before_total(b, c);
    if b != c {
        assert(text_before(b, c));
        if a.len() > 0 && b.len() > 0 && c.len() > 0 {
            if a[0] == b[0] && b[0] == c[0] {
                lemma_text_before_total(b.skip(1), c.skip(1));
                lemma_text_before_transitive(a.skip(1), b.skip(1), c.skip(1));
            }
        }
    }
}

/// Whether `a` comes before `b`.
pub fn is_before(a: &str, b: &str) -> (r: bool)
    ensures
        r == text_before(a@, b@),
{
    let x = chars_of(a);
    let y = chars_of(b);
    let mut i: usize = 0;
    assert(a@.skip(0) =~= a@ && b@.skip(0) =~= b@);
    while i < x.len() && i < y.len()
        invariant
            0 <= i <= x.len(),
            i <= y.len(),
            x@ == a@,
            y@ == b@,
            text_before(a@, b@) == text_before(a@.skip(i as int), b@.skip(i as int)),
        decreases x.len() - i,
    {
        if x[i] != y[i] {
            return x[i] < y[i];
        }
        assert(a@.skip(i as int).skip(1) =~= a@.skip(i + 1));
        assert(b@.skip(i as int).skip(1) =~= b@.skip(i + 1));
        i += 1;
    }
    i < y.len()
}

/// A value that is sorted by a text of its own.
pub trait Keyed: Sized {
    /// The text that the value is sorted by.
    spec fn key_of(&self) -> Seq<char>;

    /// The text that the value is sorted by.
    fn key(&self) -> (r: &str)
        ensures
            r@ == self.key_of(),
    ;
}

/// Whether no value comes before one that stands in front of it.
pub open spec fn is_sorted<T: Keyed>(list: Seq<T>) -> bool {
    forall|i: int, j: int|
        0 <= i < j < list.len() ==> !text_before(
            (#[trigger] list[j]).key_of(),
            (#[trigger] list[i]).key_of(),
        )
}

/// The values with a key, in their order.
pub open spec fn with_key<T: Keyed>(list: Seq<T>, key: Seq<char>) -> Seq<T> {
    list.filter(|x: T| x.key_of() == key)
}

/// Whether `sorted` holds the values of `list` sorted by key, values with one key in the order
/// that they had. There is only one such list.
pub open spec fn is_stable_sort<T: Keyed>(list: Seq<T>, sorted: Seq<T>) -> bool {
    &&& is_sorted(sorted)
    &&& sorted.len() == list.len()
    &&& forall|key: Seq<char>| #[trigger] with_key(sorted, key) == with_key(list, key)
}

/// Values none of which has a key.
proof fn lemma_with_key_none<T: Keyed>(list: Seq<T>, key: Seq<char>)
    requires
        forall|i: int| 0 <= i < list.len() ==> (#[trigger] list[i]).key_of() != key,
    ensures
        with_key(list, key) == Seq::<T>::empty(),
    decreases list.len(),
{
    reveal(Seq::filter);
    if list.len() > 0 {
        lemma_with_key_none(list.drop_last(), key);
    } else {
        assert(with_key(list, key) =~= Seq::<T>::empty());
    }
}

/// The values with a key are those of the list that have it.
proof fn lemma_with_key_contains<T: Keyed>(list: Seq<T>, key: Seq<char>, value: T)
    ensures
        with_key(list, key).contains(value) <==> list.contains(value) && value.key_of() == key,
    decreases list.len(),
{
    reveal(Seq::filter);
    if list.len() > 0 {
        let init = list.drop_last();
        let found = with_key(init, key);
        lemma_with_key_contains(init, key, value);
        assert(list =~= init.push(list.last()));
        if list.contains(value) {
            let i = choose|i: int| 0 <= i < list.len() && list[i] == value;
            if i < init.len() {
                assert(init[i] == value);
                assert(init.contains(value));
            }
        }
        if init.contains(value) {
            let i = choose|i: int| 0 <= i < init.len() && init[i] == value;
            assert(list[i] == value);
        }
        if list.last().key_of() == key {
            assert(with_key(list, key) == found.push(list.last()));
            if found.contains(value) {
                let i = choose|i: int| 0 <= i < found.len() && found[i] == value;
                assert(found.push(list.last())[i] == value);
            }
            assert(found.push(list.last())[found.len() as int] == list.last());
            if with_key(list, key).contains(value) && !found.contains(value) {
                let i = choose|i: int|
                    0 <= i < found.len() + 1 && found.push(list.last())[i] == value;
                assert(i == found.len());
                assert(list[list.len() - 1] == value);
            }
        } else {
            assert(with_key(list, key) == found);
            assert(list[list.len() - 1] == list.last());
        }
    } else {
        assert(with_key(list, key) =~= Seq::<T>::empty());
    }
}

/// Sorting loses no value and adds none, and no value then comes before one in front of it.
pub proof fn law_sorting_only_moves<T: Keyed>(list: Seq<T>, sorted: Seq<T>, value: T)
    requires
        is_stable_sort(list, sorted),
    ensures
        sorted.len() == list.len(),
        sorted.contains(value) <==> list.contains(value),
        forall|i: int, j: int|
            0 <= i < j < sorted.len() ==> !text_before(
                (#[trigger] sorted[j]).key_of(),
                (#[trigger] sorted[i]).key_of(),
            ),
{
    let key = value.key_of();
    lemma_with_key_contains(list, key, value);
    lemma_with_key_contains(sorted, key, value);
    assert(with_key(sorted, key) == with_key(list, key));
}

/// How many elements have a key: at most one where all keys differ, and at least two where two
/// places have it.
proof fn lemma_with_key_count<T: Keyed>(list: Seq<T>, key: Seq<char>, i: int, j: int)
    requires
        0 <= i < j < list.len(),
    ensures
        list[i].key_of() == key && list[j].key_of() == key ==> with_key(list, key).len() >= 2,
    decreases list.len(),
{
    reveal(Seq::filter);
    let init = list.drop_last();
    if list[i].key_of() == key && list[j].key_of() == key {
        if j < list.len() - 1 {
            lemma_with_key_count(init, key, i, j);
        } else {
            assert(init[i] == list[i]);
            assert(init.contains(list[i]));
            lemma_with_key_contains(init, key, list[i]);
            assert(with_key(init, key).len() >= 1);
        }
    }
}

/// At most one element has a key where all keys differ.
proof fn lemma_with_key_single<T: Keyed>(list: Seq<T>, key: Seq<char>)
    requires
        forall|i: int, j: int|
            0 <= i < j < list.len() ==> (#[trigger] list[i]).key_of() != (
            #[trigger] list[j]).key_of(),
    ensures
        with_key(list, key).len() <= 1,
    decreases list.len(),
{
    reveal(Seq::filter);
    if list.len() > 0 {
        let init = list.drop_last();
        assert forall|i: int, j: int| 0 <= i < j < init.len() implies (
        #[trigger] init[i]).key_of() != (#[trigger] init[j]).key_of() by {
            assert(init[i] == list[i] && init[j] == list[j]);
        }
        lemma_with_key_single(init, key);
        if list.last().key_of() == key {
            assert forall|i: int| 0 <= i < init.len() implies (#[trigger] init[i]).key_of()
                != key by {
                assert(init[i] == list[i]);
                assert(list[i].key_of() != list[list.len() - 1].key_of());
            }
            lemma_with_key_none(init, key);
        }
    }
}

/// Where no two elements of a list have the same key, no two of the sorted list have.
pub proof fn law_sorting_keeps_keys_apart<T: Keyed>(list: Seq<T>, sorted: Seq<T>, i: int, j: int)
    requires
        is_stable_sort(list, sorted),
        forall|a: int, b: int|
            0 <= a < b < list.len() ==> (#[trigger] list[a]).key_of() != (
            #[trigger] list[b]).key_of(),
        0 <= i < j < sorted.len(),
    ensures
        sorted[i].key_of() != sorted[j].key_of(),
{
    let key = sorted[i].key_of();
    lemma_with_key_count(sorted, key, i, j);
    lemma_with_key_single(list, key);
    assert(with_key(sorted, key) == with_key(list, key));
}

/// The values with a key among two lists, one after the other.
proof fn lemma_with_key_add<T: Keyed>(a: Seq<T>, b: Seq<T>, key: Seq<char>)
    ensures
        with_key(a + b, key) == with_key(a, key) + with_key(b, key),
{
    Seq::filter_distributes_over_add(a, b, |x: T| x.key_of() == key);
}

/// Putting a value in front of everything that does not come before it keeps a list sorted.
proof fn lemma_insert_sorted<T: Keyed>(list: Seq<T>, at: int, value: T)
    requires
        is_sorted(list),
        0 <= at <= list.len(),
        forall|i: int| 0 <= i < at ==> text_before((#[trigger] list[i]).key_of(), value.key_of()),
        at < list.len() ==> !text_before(list[at].key_of(), value.key_of()),
    ensures
        is_sorted(list.insert(at, value)),
        forall|key: Seq<char>|
            #[trigger] with_key(list.insert(at, value), key) == with_key(seq![value], key)
                + with_key(list, key),
{
    let out = list.insert(at, value);
    assert forall|i: int, j: int| 0 <= i < j < out.len() implies !text_before(
        (#[trigger] out[j]).key_of(),
        (#[trigger] out[i]).key_of(),
    ) by {
        if i < at && j < at {
            assert(out[i] == list[i] && out[j] == list[j]);
        } else if i < at && j == at {
            assert(out[i] == list[i]);
            lemma_text_before_total(list[i].key_of(), value.key_of());
        } else if i < at {
            assert(out[i] == list[i] && out[j] == list[j - 1]);
        } else if i == at {
            assert(out[j] == list[j - 1]);
            if text_before(list[j - 1].key_of(), value.key_of()) {
                lemma_text_before_transitive(
                    list[j - 1].key_of(),
                    value.key_of(),
                    list[at].key_of(),
                );
            }
        } else {
            assert(out[i] == list[i - 1] && out[j] == list[j - 1]);
        }
    }
    assert forall|key: Seq<char>| #[trigger] with_key(out, key) == with_key(seq![value], key)
        + with_key(list, key) by {
        let front = list.take(at);
        let back = list.skip(at);
        assert(list =~= front + back);
        assert(out =~= front + (seq![value] + back));
        lemma_with_key_add(front, back, key);
        lemma_with_key_add(front, seq![value] + back, key);
        lemma_with_key_add(seq![value], back, key);
        if value.key_of() == key {
            assert forall|i: int| 0 <= i < front.len() implies (#[trigger] front[i]).key_of()
                != key by {
                assert(front[i] == list[i]);
                lemma_text_before_total(list[i].key_of(), value.key_of());
            }
            lemma_with_key_none(front, key);
            assert(with_key(out, key) =~= with_key(seq![value], key) + with_key(list, key));
        } else {
            assert(seq![value][0].key_of() != key);
            lemma_with_key_none(seq![value], key);
            assert(with_key(out, key) =~= with_key(list, key));
            assert(with_key(seq![value], key) + with_key(list, key) =~= with_key(list, key));
        }
    }
}

/// Sorts by key. Values with one key keep their order.
pub fn stable_sort<T: Keyed>(list: Vec<T>) -> (r: Vec<T>)
    ensures
        is_stable_sort(list@, r@),
{
    let ghost all = list@;
    let mut rest = list;
    let mut out: Vec<T> = Vec::new();
    assert(all.skip(all.len() as int) =~= Seq::<T>::empty());
    while rest.len() > 0
        invariant
            rest@ == all.take(rest.len() as int),
            rest.len() <= all.len(),
            is_stable_sort(all.skip(rest.len() as int), out@),
            out.len() == all.len() - rest.len(),
        decreases rest.len(),
    {
        let ghost n = rest.len() as int;
        let value = match rest.pop() {
            Some(value) => value,
            None => return out,
        };
        assert(value == all[n - 1]);
        assert(rest@ =~= all.take(n - 1));
        let mut at: usize = 0;
        while at < out.len() && is_before(out[at].key(), value.key())
            invariant
                0 <= at <= out.len(),
                forall|i: int|
                    0 <= i < at ==> text_before((#[trigger] out@[i]).key_of(), value.key_of()),
            ensures
                at < out.len() ==> !text_before(out@[at as int].key_of(), value.key_of()),
            decreases out.len() - at,
        {
            at += 1;
        }
        let ghost sorted = out@;
        proof {
            lemma_insert_sorted(sorted, at as int, value);
            assert forall|key: Seq<char>| #[trigger] with_key(
                sorted.insert(at as int, value),
                key,
            ) == with_key(all.skip(n - 1), key) by {
                assert(all.skip(n - 1) =~= seq![value] + all.skip(n));
                lemma_with_key_add(seq![value], all.skip(n), key);
                assert(with_key(sorted, key) == with_key(all.skip(n), key));
            }
        }
        out.insert(at, value);
    }
    assert(all.skip(0) =~= all);
    out
}

} // verus!
