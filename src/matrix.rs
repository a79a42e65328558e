use vstd::prelude::*;
use std::collections::BTreeMap;
use crate::geometry::{Vec2i, vec2i};

verus! {

broadcast use vstd::std_specs::btree::group_btree_axioms;

/// A sparse 2D matrix keyed by signed `(row, col)` pairs.
#[derive(Clone, Debug)]
pub struct Matrix<T> {
    pub data: BTreeMap<(i32, i32), T>,
}

impl<T> Matrix<T> {
    pub open spec fn view(&self) -> Map<(i32, i32), T> {
        self.data@
    }

    /// Creates a new empty matrix.
    pub fn new() -> (r: Matrix<T>)
        ensures
            r@ == Map::<(i32, i32), T>::empty(),
    {
        Matrix { data: BTreeMap::new() }
    }

    /// Number of stored cells.
    pub fn len(&self) -> (r: usize)
        ensures
            r == self@.dom().len(),
    {
        self.data.len()
    }

    /// Inserts a value at `(row, col)`, overwriting what was there.
    pub fn insert(&mut self, row: i32, col: i32, value: T)
        ensures
            final(self)@ == old(self)@.insert((row, col), value),
            final(self)@.dom().len() == old(self)@.dom().len() + if old(self)@.contains_key((row, col)) {
                0int
            } else {
                1int
            },
    {
        self.data.insert((row, col), value);
        proof {
            let d = old(self)@.dom();
            if !d.contains((row, col)) {
                assert(final(self)@.dom() =~= d.insert((row, col)));
            } else {
                assert(final(self)@.dom() =~= d);
            }
        }
    }

    /// Gets the value at `(row, col)`, if any.
    pub fn get(&self, row: i32, col: i32) -> (r: Option<&T>)
        ensures
            r.is_some() == self@.contains_key((row, col)),
            r.is_some() ==> *r.unwrap() == self@[(row, col)],
    {
        self.data.get(&(row, col))
    }

    /// The smallest and largest row and column in use: `[(min row, min col),
    /// (max row, max col)]`, each 0 when the matrix is empty.
    pub fn bounds(&self) -> (r: [Vec2i; 2])
        ensures
            self@.dom().len() == 0 ==> r[0] == (Vec2i { x: 0, y: 0 }) && r[1] == (Vec2i { x: 0, y: 0 }),
            forall|k: (i32, i32)|
                #[trigger] self@.contains_key(k) ==> r[0].x <= k.0 <= r[1].x && r[0].y <= k.1 <= r[1].y,
            self@.dom().len() > 0 ==> (exists|k: (i32, i32)| #[trigger] self@.contains_key(k) && k.0 == r[0].x),
            self@.dom().len() > 0 ==> (exists|k: (i32, i32)| #[trigger] self@.contains_key(k) && k.1 == r[0].y),
            self@.dom().len() > 0 ==> (exists|k: (i32, i32)| #[trigger] self@.contains_key(k) && k.0 == r[1].x),
            self@.dom().len() > 0 ==> (exists|k: (i32, i32)| #[trigger] self@.contains_key(k) && k.1 == r[1].y),
    {
        let mut lo_r: i32 = 0;
        let mut lo_c: i32 = 0;
        let mut hi_r: i32 = 0;
        let mut hi_c: i32 = 0;
        let mut seen = false;
        for kv in it: self.data.iter()
            invariant
                seen == (it.index() > 0),
                it.seq().len() == self@.dom().len(),
                forall|j: int| 0 <= j < it.seq().len() ==> self@.contains_key(*(#[trigger] it.seq()[j]).0),
                forall|j: int|
                    0 <= j < it.index() ==> lo_r <= (*(#[trigger] it.seq()[j]).0).0 <= hi_r && lo_c
                        <= (*it.seq()[j].0).1 <= hi_c,
                seen ==> exists|j: int| 0 <= j < it.index() && (*(#[trigger] it.seq()[j]).0).0 == lo_r,
                seen ==> exists|j: int| 0 <= j < it.index() && (*(#[trigger] it.seq()[j]).0).1 == lo_c,
                seen ==> exists|j: int| 0 <= j < it.index() && (*(#[trigger] it.seq()[j]).0).0 == hi_r,
                seen ==> exists|j: int| 0 <= j < it.index() && (*(#[trigger] it.seq()[j]).0).1 == hi_c,
                !seen ==> lo_r == 0 && lo_c == 0 && hi_r == 0 && hi_c == 0,
        {
            let k = *kv.0;
            if !seen || k.0 < lo_r {
                lo_r = k.0;
            }
            if !seen || k.0 > hi_r {
                hi_r = k.0;
            }
            if !seen || k.1 < lo_c {
                lo_c = k.1;
            }
            if !seen || k.1 > hi_c {
                hi_c = k.1;
            }
            seen = true;
        }
        [vec2i(lo_r, lo_c), vec2i(hi_r, hi_c)]
    }
}

} // verus!
