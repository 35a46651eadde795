//! Values and their models.
//!
//! A value that holds text or lists has a model in which each text is a
//! sequence of characters and each list a sequence of models.

use vstd::prelude::*;

verus! {

broadcast use vstd::string::group_string_axioms;

/// A value that can be copied, and compared by its model.
pub trait Modeled: View + Sized {
    fn copy(&self) -> (r: Self)
        ensures
            r@ == self@,
    ;

    fn same(&self, other: &Self) -> (r: bool)
        ensures
            r == (self@ == other@),
    ;
}

/// The models of the elements of a list.
pub open spec fn views<T: View>(s: Seq<T>) -> Seq<T::V> {
    s.map_values(|x: T| x@)
}

/// The model of an optional value.
pub open spec fn option_view<T: View>(o: Option<T>) -> Option<T::V> {
    match o {
        Some(x) => Some(x@),
        None => None,
    }
}

impl Modeled for String {
    fn copy(&self) -> (r: Self) {
        self.clone()
    }

    fn same(&self, other: &Self) -> (r: bool) {
        *self == *other
    }
}

pub fn copy_all<T: Modeled>(v: &Vec<T>) -> (r: Vec<T>)
    ensures
        views(r@) == views(v@),
{
    let mut r: Vec<T> = Vec::new();
    let mut i: usize = 0;
    while i < v.len()
        invariant
            i <= v@.len(),
            r@.len() == i,
            forall|k: int| 0 <= k < i ==> (#[trigger] r@[k])@ == v@[k]@,
        decreases v@.len() - i,
    {
        r.push(v[i].copy());
        i += 1;
    }
    assert(views(r@) =~= views(v@));
    r
}

pub fn same_all<T: Modeled>(a: &Vec<T>, b: &Vec<T>) -> (r: bool)
    ensures
        r == (views(a@) == views(b@)),
{
    if a.len() != b.len() {
        assert(views(a@).len() != views(b@).len());
        return false;
    }
    let mut i: usize = 0;
    while i < a.len()
        invariant
            i <= a@.len(),
            a@.len() == b@.len(),
            forall|k: int| 0 <= k < i ==> views(a@)[k] == views(b@)[k],
        decreases a@.len() - i,
    {
        if !a[i].same(&b[i]) {
            assert(views(a@)[i as int] != views(b@)[i as int]);
            return false;
        }
        i += 1;
    }
    assert(views(a@) =~= views(b@));
    true
}

pub fn copy_list<T: Copy>(v: &Vec<T>) -> (r: Vec<T>)
    ensures
        r@ == v@,
{
    let mut r: Vec<T> = Vec::new();
    let mut i: usize = 0;
    while i < v.len()
        invariant
            i <= v@.len(),
            r@ == v@.take(i as int),
        decreases v@.len() - i,
    {
        r.push(v[i]);
        i += 1;
        assert(r@ =~= v@.take(i as int));
    }
    assert(v@.take(i as int) =~= v@);
    r
}

pub fn copy_option<T: Modeled>(o: &Option<T>) -> (r: Option<T>)
    ensures
        option_view(r) == option_view(*o),
{
    match o {
        Some(x) => Some(x.copy()),
        None => None,
    }
}

pub fn same_option<T: Modeled>(a: &Option<T>, b: &Option<T>) -> (r: bool)
    ensures
        r == (option_view(*a) == option_view(*b)),
{
    match (a, b) {
        (Some(x), Some(y)) => x.same(y),
        (None, None) => true,
        _ => false,
    }
}

/// The first position of an element with a given model.
pub open spec fn first_position<M>(s: Seq<M>, wanted: spec_fn(M) -> bool) -> Option<int>
    decreases s.len(),
{
    if s.len() == 0 {
        None
    } else {
        match first_position(s.drop_last(), wanted) {
            Some(i) => Some(i),
            None => if wanted(s.last()) {
                Some(s.len() - 1)
            } else {
                None
            },
        }
    }
}

/// What the first position is: an element that is wanted, and none before it.
pub proof fn first_position_finds<M>(s: Seq<M>, wanted: spec_fn(M) -> bool)
    ensures
        match first_position(s, wanted) {
            Some(i) => 0 <= i < s.len() && wanted(s[i]) && forall|k: int|
                0 <= k < i ==> !wanted(#[trigger] s[k]),
            None => forall|k: int| 0 <= k < s.len() ==> !wanted(#[trigger] s[k]),
        },
    decreases s.len(),
{
    if s.len() > 0 {
        first_position_finds(s.drop_last(), wanted);
        let before = s.drop_last();
        match first_position(before, wanted) {
            Some(i) => {
                assert(before[i] == s[i]);
                assert forall|k: int| 0 <= k < i implies !wanted(#[trigger] s[k]) by {
                    assert(before[k] == s[k]);
                }
            },
            None => {
                assert forall|k: int| 0 <= k < s.len() - 1 implies !wanted(#[trigger] s[k]) by {
                    assert(before[k] == s[k]);
                }
                assert(s.last() == s[s.len() - 1]);
            },
        }
    }
}

/// A position that is known to be the first.
pub proof fn first_position_is<M>(s: Seq<M>, wanted: spec_fn(M) -> bool, at: int)
    requires
        0 <= at < s.len(),
        wanted(s[at]),
        forall|k: int| 0 <= k < at ==> !wanted(#[trigger] s[k]),
    ensures
        first_position(s, wanted) == Some(at),
{
    first_position_finds(s, wanted);
}

/// No position, where no element is wanted.
pub proof fn no_first_position<M>(s: Seq<M>, wanted: spec_fn(M) -> bool)
    requires
        forall|k: int| 0 <= k < s.len() ==> !wanted(#[trigger] s[k]),
    ensures
        first_position(s, wanted) is None,
{
    first_position_finds(s, wanted);
}

} // verus!
