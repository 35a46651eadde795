//! Alphabetical order of texts, and sorting by it.

use vstd::prelude::*;
use crate::model::{views, Modeled};
use crate::text::texts;

verus! {

broadcast use vstd::string::group_string_axioms;

/// Whether a text comes before another, or is the same: the first character in
/// which they differ decides, and a text comes before what it is a beginning of.
pub open spec fn alphabetical(a: Seq<char>, b: Seq<char>) -> bool
    decreases a.len(),
{
    if a.len() == 0 {
        true
    } else if b.len() == 0 {
        false
    } else if a[0] != b[0] {
        a[0] < b[0]
    } else {
        alphabetical(a.skip(1), b.skip(1))
    }
}

pub fn is_alphabetical(a: &[char], b: &[char]) -> (r: bool)
    ensures
        r == alphabetical(a@, b@),
{
    let mut i: usize = 0;
    assert(a@.skip(0) =~= a@);
    assert(b@.skip(0) =~= b@);
    while i < a.len()
        invariant
            i <= a@.len(),
            i <= b@.len(),
            alphabetical(a@, b@) == alphabetical(a@.skip(i as int), b@.skip(i as int)),
        decreases a@.len() - i,
    {
        if i >= b.len() {
            return false;
        }
        if a[i] != b[i] {
            return a[i] < b[i];
        }
        assert(a@.skip(i as int).skip(1) =~= a@.skip(i + 1));
        assert(b@.skip(i as int).skip(1) =~= b@.skip(i + 1));
        i += 1;
    }
    true
}

pub proof fn alphabetical_is_total(a: Seq<char>, b: Seq<char>)
    ensures
        alphabetical(a, b) || alphabetical(b, a),
    decreases a.len(),
{
    if a.len() > 0 && b.len() > 0 && a[0] == b[0] {
        alphabetical_is_total(a.skip(1), b.skip(1));
    }
}

pub proof fn alphabetical_is_transitive(a: Seq<char>, b: Seq<char>, c: Seq<char>)
    requires
        alphabetical(a, b),
        alphabetical(b, c),
    ensures
        alphabetical(a, c),
    decreases a.len(),
{
    if a.len() > 0 && b.len() > 0 && c.len() > 0 && a[0] == b[0] && b[0] == c[0] {
        alphabetical_is_transitive(a.skip(1), b.skip(1), c.skip(1));
    }
}

/// Two texts that come before each other are the same.
pub proof fn alphabetical_is_antisymmetric(a: Seq<char>, b: Seq<char>)
    requires
        alphabetical(a, b),
        alphabetical(b, a),
    ensures
        a == b,
    decreases a.len(),
{
    if a.len() > 0 && b.len() > 0 {
        alphabetical_is_antisymmetric(a.skip(1), b.skip(1));
        assert(a =~= seq![a[0]] + a.skip(1));
        assert(b =~= seq![b[0]] + b.skip(1));
    } else {
        assert(a =~= b);
    }
}

/// Whether the texts of a list stand in alphabetical order.
pub open spec fn in_order(s: Seq<Seq<char>>) -> bool {
    forall|i: int, j: int| 0 <= i <= j < s.len() ==> alphabetical(#[trigger] s[i], #[trigger] s[j])
}

/// A text put into a list before the first text that does not come before it.
pub open spec fn put(s: Seq<Seq<char>>, t: Seq<char>) -> Seq<Seq<char>>
    decreases s.len(),
{
    if s.len() == 0 {
        seq![t]
    } else if alphabetical(s[0], t) {
        seq![s[0]] + put(s.skip(1), t)
    } else {
        seq![t] + s
    }
}

/// The texts of a list in alphabetical order.
pub open spec fn sorted(s: Seq<Seq<char>>) -> Seq<Seq<char>>
    decreases s.len(),
{
    if s.len() == 0 {
        s
    } else {
        put(sorted(s.drop_last()), s.last())
    }
}

proof fn put_keeps_order(s: Seq<Seq<char>>, t: Seq<char>)
    requires
        in_order(s),
    ensures
        in_order(put(s, t)),
        put(s, t).to_multiset() == s.to_multiset().insert(t),
        put(s, t).len() == s.len() + 1,
        s.len() > 0 ==> put(s, t)[0] == s[0] || put(s, t)[0] == t,
        s.len() == 0 ==> put(s, t)[0] == t,
    decreases s.len(),
{
    broadcast use vstd::seq_lib::group_to_multiset_ensures;

    let now = put(s, t);
    if s.len() == 0 {
        alphabetical_is_total(t, t);
        assert(s.insert(0, t) =~= now);
        vstd::seq_lib::to_multiset_insert(s, 0, t);
    } else if alphabetical(s[0], t) {
        let rest = s.skip(1);
        assert forall|i: int, j: int| 0 <= i <= j < rest.len() implies alphabetical(
            #[trigger] rest[i],
            #[trigger] rest[j],
        ) by {
            assert(rest[i] == s[i + 1] && rest[j] == s[j + 1]);
        }
        put_keeps_order(rest, t);
        let tail = put(rest, t);
        assert(now =~= seq![s[0]] + tail);
        assert forall|j: int| 0 <= j < tail.len() implies alphabetical(s[0], #[trigger] tail[j]) by {
            alphabetical_is_total(s[0], s[0]);
            if rest.len() > 0 && tail[0] == rest[0] {
                assert(rest[0] == s[1]);
            }
            alphabetical_is_transitive(s[0], tail[0], tail[j]);
        }
        assert forall|i: int, j: int| 0 <= i <= j < now.len() implies alphabetical(
            #[trigger] now[i],
            #[trigger] now[j],
        ) by {
            alphabetical_is_total(s[0], s[0]);
            if i > 0 {
                assert(now[i] == tail[i - 1] && now[j] == tail[j - 1]);
            } else if j > 0 {
                assert(now[j] == tail[j - 1]);
            }
        }
        vstd::seq_lib::to_multiset_insert(tail, 0, s[0]);
        assert(tail.insert(0, s[0]) =~= now);
        vstd::seq_lib::to_multiset_insert(rest, 0, s[0]);
        assert(rest.insert(0, s[0]) =~= s);
        assert(now.to_multiset() =~= s.to_multiset().insert(t));
    } else {
        alphabetical_is_total(s[0], t);
        alphabetical_is_total(t, t);
        assert forall|i: int, j: int| 0 <= i <= j < now.len() implies alphabetical(
            #[trigger] now[i],
            #[trigger] now[j],
        ) by {
            if i > 0 {
                assert(now[i] == s[i - 1] && now[j] == s[j - 1]);
            } else if j > 0 {
                assert(now[j] == s[j - 1]);
                alphabetical_is_transitive(t, s[0], s[j - 1]);
            }
        }
        assert(s.insert(0, t) =~= now);
        vstd::seq_lib::to_multiset_insert(s, 0, t);
    }
}

/// Sorting puts the texts in order and keeps each as often as it occurs.
pub proof fn sorted_is_in_order(s: Seq<Seq<char>>)
    ensures
        in_order(sorted(s)),
        sorted(s).to_multiset() == s.to_multiset(),
    decreases s.len(),
{
    if s.len() > 0 {
        sorted_is_in_order(s.drop_last());
        put_keeps_order(sorted(s.drop_last()), s.last());
        vstd::seq_lib::to_multiset_insert(s.drop_last(), s.len() - 1, s.last());
        assert(s.drop_last().insert(s.len() - 1, s.last()) =~= s);
    }
}

/// A text is put where all before it come before it, and the next does not.
proof fn put_at(s: Seq<Seq<char>>, t: Seq<char>, at: int)
    requires
        0 <= at <= s.len(),
        forall|i: int| 0 <= i < at ==> alphabetical(#[trigger] s[i], t),
        at < s.len() ==> !alphabetical(s[at], t),
    ensures
        put(s, t) == s.insert(at, t),
    decreases s.len(),
{
    if at > 0 {
        let rest = s.skip(1);
        assert forall|i: int| 0 <= i < at - 1 implies alphabetical(#[trigger] rest[i], t) by {
            assert(rest[i] == s[i + 1]);
        }
        put_at(rest, t, at - 1);
        assert(alphabetical(s[0], t));
        assert(seq![s[0]] + rest.insert(at - 1, t) =~= s.insert(at, t));
    } else if s.len() == 0 {
        assert(seq![t] =~= s.insert(0, t));
    } else {
        assert(seq![t] + s =~= s.insert(0, t));
    }
}

/// Where a text is put into a list that is in order. The search begins at the
/// end, so that texts in order are put fast.
fn place(list: &Vec<Vec<char>>, text: &Vec<char>) -> (r: usize)
    requires
        in_order(texts(list@)),
    ensures
        r <= list@.len(),
        put(texts(list@), text@) == texts(list@).insert(r as int, text@),
{
    let ghost all = texts(list@);
    let mut i: usize = list.len();
    while i > 0 && !is_alphabetical(&list[i - 1], text)
        invariant
            i <= list@.len(),
            all == texts(list@),
            i < list@.len() ==> !alphabetical(all[i as int], text@),
        decreases i,
    {
        i -= 1;
        assert(all[i as int] == list@[i as int]@);
    }
    proof {
        if i > 0 {
            assert(all[i - 1] == list@[i - 1]@);
            assert forall|k: int| 0 <= k < i implies alphabetical(#[trigger] all[k], text@) by {
                assert(alphabetical(all[k], all[i - 1]));
                alphabetical_is_transitive(all[k], all[i - 1], text@);
            }
        }
        put_at(all, text@, i as int);
    }
    i
}

/// Sorts texts alphabetically; see `sorted`.
pub fn sort(list: Vec<Vec<char>>) -> (r: Vec<Vec<char>>)
    ensures
        texts(r@) == sorted(texts(list@)),
{
    let mut r: Vec<Vec<char>> = Vec::new();
    let mut i: usize = 0;
    let ghost all = texts(list@);
    assert(texts(r@) =~= Seq::empty());
    assert(all.take(0) =~= Seq::empty());
    while i < list.len()
        invariant
            i <= list@.len(),
            all == texts(list@),
            texts(r@) == sorted(all.take(i as int)),
        decreases list@.len() - i,
    {
        proof {
            sorted_is_in_order(all.take(i as int));
        }
        let text = crate::text::sub_chars(&list[i], 0, list[i].len());
        assert(text@ =~= list@[i as int]@);
        let at: usize = place(&r, &text);
        let ghost before = texts(r@);
        let ghost t = text@;
        r.insert(at, text);
        assert(texts(r@) =~= before.insert(at as int, t));
        assert(all.take(i + 1).drop_last() =~= all.take(i as int));
        assert(all.take(i + 1).last() == t);
        i += 1;
    }
    assert(all.take(i as int) =~= all);
    r
}

// ---------------------------------------------------------------------------
// Values with a name

/// A value that is listed by its name.
pub trait Named: Modeled {
    spec fn name_in(model: Self::V) -> Seq<char>;

    fn name(&self) -> (r: Vec<char>)
        ensures
            r@ == Self::name_in(self@),
    ;
}

/// A value put into a list behind those whose names do not come after its own.
pub open spec fn put_named<T: Named>(list: Seq<T::V>, value: T::V) -> Seq<T::V>
    decreases list.len(),
{
    if list.len() == 0 || alphabetical(T::name_in(list.last()), T::name_in(value)) {
        list.push(value)
    } else {
        put_named::<T>(list.drop_last(), value).push(list.last())
    }
}

/// The values of a list by their names; those of one name keep their order.
pub open spec fn arranged<T: Named>(list: Seq<T::V>) -> Seq<T::V>
    decreases list.len(),
{
    if list.len() == 0 {
        list
    } else {
        put_named::<T>(arranged::<T>(list.drop_last()), list.last())
    }
}

pub open spec fn by_name<T: Named>(list: Seq<T::V>) -> bool {
    forall|i: int, j: int|
        0 <= i <= j < list.len() ==> alphabetical(
            T::name_in(#[trigger] list[i]),
            T::name_in(#[trigger] list[j]),
        )
}

proof fn put_named_keeps_order<T: Named>(list: Seq<T::V>, value: T::V)
    requires
        by_name::<T>(list),
    ensures
        by_name::<T>(put_named::<T>(list, value)),
        put_named::<T>(list, value).len() == list.len() + 1,
        put_named::<T>(list, value).to_multiset() == list.to_multiset().insert(value),
        list.len() > 0 ==> put_named::<T>(list, value).last() == value || put_named::<T>(
            list,
            value,
        ).last() == list.last(),
        list.len() == 0 ==> put_named::<T>(list, value).last() == value,
    decreases list.len(),
{
    broadcast use vstd::seq_lib::group_to_multiset_ensures;

    let now = put_named::<T>(list, value);
    let name = T::name_in(value);
    if list.len() == 0 || alphabetical(T::name_in(list.last()), name) {
        alphabetical_is_total(name, name);
        assert forall|i: int, j: int| 0 <= i <= j < now.len() implies alphabetical(
            T::name_in(#[trigger] now[i]),
            T::name_in(#[trigger] now[j]),
        ) by {
            if j == now.len() - 1 && i < j {
                alphabetical_is_transitive(
                    T::name_in(list[i]),
                    T::name_in(list[list.len() - 1]),
                    name,
                );
            }
        }
    } else {
        let last = list.last();
        let before = list.drop_last();
        assert forall|i: int, j: int| 0 <= i <= j < before.len() implies alphabetical(
            T::name_in(#[trigger] before[i]),
            T::name_in(#[trigger] before[j]),
        ) by {
            assert(before[i] == list[i] && before[j] == list[j]);
        }
        put_named_keeps_order::<T>(before, value);
        let head = put_named::<T>(before, value);
        alphabetical_is_total(T::name_in(last), name);
        alphabetical_is_total(T::name_in(last), T::name_in(last));
        assert forall|i: int| 0 <= i < head.len() implies alphabetical(
            T::name_in(#[trigger] head[i]),
            T::name_in(last),
        ) by {
            if before.len() > 0 && head.last() == before.last() {
                assert(before.last() == list[list.len() - 2]);
                assert(alphabetical(
                    T::name_in(list[list.len() - 2]),
                    T::name_in(list[list.len() - 1]),
                ));
            }
            assert(alphabetical(T::name_in(head[i]), T::name_in(head[head.len() - 1])));
            alphabetical_is_transitive(
                T::name_in(head[i]),
                T::name_in(head.last()),
                T::name_in(last),
            );
        }
        assert forall|i: int, j: int| 0 <= i <= j < now.len() implies alphabetical(
            T::name_in(#[trigger] now[i]),
            T::name_in(#[trigger] now[j]),
        ) by {
            if j < now.len() - 1 {
                assert(now[i] == head[i] && now[j] == head[j]);
            } else if i < j {
                assert(now[i] == head[i]);
            }
        }
        assert(before.push(last) =~= list);
        assert(now.to_multiset() =~= list.to_multiset().insert(value));
    }
}

/// Arranging puts the values in order and keeps each as often as it occurs.
pub proof fn arranged_is_in_order<T: Named>(list: Seq<T::V>)
    ensures
        by_name::<T>(arranged::<T>(list)),
        arranged::<T>(list).to_multiset() == list.to_multiset(),
    decreases list.len(),
{
    broadcast use vstd::seq_lib::group_to_multiset_ensures;

    if list.len() > 0 {
        arranged_is_in_order::<T>(list.drop_last());
        put_named_keeps_order::<T>(arranged::<T>(list.drop_last()), list.last());
        assert(list.drop_last().push(list.last()) =~= list);
    }
}

fn insert_named<T: Named>(list: &mut Vec<T>, value: T)
    ensures
        views(final(list)@) == put_named::<T>(views(old(list)@), value@),
{
    let ghost all = views(list@);
    let name = value.name();
    let mut i: usize = list.len();
    assert(all.take(i as int) =~= all);
    assert(put_named::<T>(all, value@) =~= put_named::<T>(all.take(i as int), value@) + all.skip(
        i as int,
    ));
    while i > 0 && !is_alphabetical(&list[i - 1].name(), &name)
        invariant
            i <= list@.len(),
            all == views(list@),
            name@ == T::name_in(value@),
            put_named::<T>(all, value@) == put_named::<T>(all.take(i as int), value@) + all.skip(
                i as int,
            ),
        decreases i,
    {
        assert(all.take(i as int).last() == list@[i - 1]@);
        assert(all.take(i as int).drop_last() =~= all.take(i - 1));
        assert(put_named::<T>(all.take(i - 1), value@).push(all[i - 1]) + all.skip(i as int)
            =~= put_named::<T>(all.take(i - 1), value@) + all.skip(i - 1));
        i -= 1;
    }
    let ghost m = value@;
    if i > 0 {
        assert(all.take(i as int).last() == list@[i - 1]@);
    }
    list.insert(i, value);
    assert(views(list@) =~= all.take(i as int).push(m) + all.skip(i as int));
}

/// Arranges values by their names; see `arranged`.
pub fn arrange<T: Named>(list: &Vec<T>) -> (r: Vec<T>)
    ensures
        views(r@) == arranged::<T>(views(list@)),
{
    let ghost all = views(list@);
    let mut r: Vec<T> = Vec::new();
    let mut i: usize = 0;
    assert(views(r@) =~= arranged::<T>(all.take(0)));
    while i < list.len()
        invariant
            i <= list@.len(),
            all == views(list@),
            views(r@) == arranged::<T>(all.take(i as int)),
        decreases list@.len() - i,
    {
        insert_named(&mut r, list[i].copy());
        i += 1;
        assert(all.take(i as int).drop_last() =~= all.take(i - 1));
        assert(all.take(i as int).last() == list@[i - 1]@);
    }
    assert(all.take(i as int) =~= all);
    r
}

} // verus!
