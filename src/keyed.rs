//! Lookup and removal by identifier, shared by every entity that has one.

use vstd::prelude::*;
use crate::model::{Collection, Environment, Request, Workspace, first_index, is_first_index, lemma_first_index_absent, lemma_first_index_unique};

verus! {

/// An entity identified by a string.
pub trait Keyed: Sized {
    spec fn key_view(&self) -> Seq<char>;

    fn key(&self) -> (r: &String)
        ensures
            r@ == self.key_view(),
    ;
}

/// Keys of a sequence of entities, in order.
pub open spec fn keys_of<T: Keyed>(s: Seq<T>) -> Seq<Seq<char>> {
    s.map_values(|x: T| x.key_view())
}

/// Position of the first entity of `v` whose key is `id`, if any.
pub fn find_index<T: Keyed>(v: &Vec<T>, id: &String) -> (r: Option<usize>)
    ensures
        match r {
            Some(i) => i as int == first_index(keys_of(v@), id@) && i < v@.len(),
            None => first_index(keys_of(v@), id@) == -1,
        },
{
    let mut i: usize = 0;
    while i < v.len()
        invariant
            i <= v@.len(),
            forall|j: int| 0 <= j < i ==> keys_of(v@)[j] != id@,
        decreases v@.len() - i,
    {
        if *v[i].key() == *id {
            proof {
                assert(is_first_index(keys_of(v@), id@, i as int));
                lemma_first_index_unique(keys_of(v@), id@, i as int);
            }
            return Some(i);
        }
        i = i + 1;
    }
    proof {
        lemma_first_index_absent(keys_of(v@), id@);
    }
    None
}

/// Keeps, in order, the entities of `v` whose key is not `id`.
pub fn remove_key<T: Keyed>(v: Vec<T>, id: &String) -> (r: Vec<T>)
    ensures
        r@ == v@.filter(|x: T| x.key_view() != id@),
{
    let mut v = v;
    let ghost orig = v@;
    let mut kept: Vec<T> = Vec::new();
    let mut n: usize = v.len();
    // Move the entities out back to front, then restore the order.
    let mut rev: Vec<T> = Vec::new();
    while n > 0
        invariant
            n == v@.len(),
            v@ == orig.take(n as int),
            rev@.len() == orig.len() - n,
            forall|j: int| 0 <= j < rev@.len() ==> rev@[j] == orig[orig.len() - 1 - j],
            n <= orig.len(),
        decreases n,
    {
        let x = v.pop().unwrap();
        rev.push(x);
        n = n - 1;
        proof {
            assert(v@ =~= orig.take(n as int));
        }
    }
    let mut k: usize = rev.len();
    while k > 0
        invariant
            k == rev@.len(),
            k <= orig.len(),
            forall|j: int| 0 <= j < k ==> rev@[j] == orig[orig.len() - 1 - j],
            kept@ == orig.take(orig.len() - k).filter(|x: T| x.key_view() != id@),
        decreases k,
    {
        let x = rev.pop().unwrap();
        k = k - 1;
        proof {
            let m = orig.len() - k;
            assert(x == orig[m - 1]);
            assert(orig.take(m) =~= orig.take(m - 1).push(x));
            orig.take(m - 1).lemma_filter_push(x, |x: T| x.key_view() != id@);
        }
        let ghost xv = x;
        if *x.key() != *id {
            kept.push(x);
        }
        proof {
            let m = orig.len() - k;
            assert(kept@ == orig.take(m).filter(|x: T| x.key_view() != id@));
        }
    }
    proof {
        assert(orig.take(orig.len() as int) =~= orig);
    }
    kept
}

} // verus!

verus! {

impl Keyed for Workspace {
    open spec fn key_view(&self) -> Seq<char> {
        self.id@
    }

    fn key(&self) -> (r: &String) {
        &self.id
    }
}

impl Keyed for Collection {
    open spec fn key_view(&self) -> Seq<char> {
        self.id@
    }

    fn key(&self) -> (r: &String) {
        &self.id
    }
}

impl Keyed for Request {
    open spec fn key_view(&self) -> Seq<char> {
        self.id@
    }

    fn key(&self) -> (r: &String) {
        &self.id
    }
}

impl Keyed for Environment {
    open spec fn key_view(&self) -> Seq<char> {
        self.id@
    }

    fn key(&self) -> (r: &String) {
        &self.id
    }
}

} // verus!
