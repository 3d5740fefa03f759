//! Index translation between a row's stable identity and its positional
//! (parent, row) address, for the two container kinds, together with the
//! transfer model for variable-length values.
//!
//! A flat container's rows are identified by position alone, so the only
//! translation is the boundary conversion of a signed row. A tree
//! container identifies a node by a stable internal id, distinct from its
//! position among its siblings; `TreeLayout` is the shape both emitted
//! artifacts must agree on, and the lemmas below state the round-trip
//! identities that agreement rests on.

use vstd::prelude::*;

verus! {

/// What a signed row received from the boundary translates to: a negative
/// value becomes the absent sentinel, never an index.
pub open spec fn spec_row_from_boundary(row: i32) -> Option<usize> {
    if row >= 0 {
        Some(row as usize)
    } else {
        None
    }
}

/// Converts a row that crossed the boundary as a signed integer. Any
/// negative value translates to the absent sentinel and is never used as
/// an index; this check precedes every data access in the emitted code.
pub fn row_from_boundary(row: i32) -> (r: Option<usize>)
    ensures
        r == spec_row_from_boundary(row),
        row < 0 ==> r is None,
        row >= 0 ==> r == Some(row as usize),
{
    if row >= 0 {
        Some(row as usize)
    } else {
        None
    }
}

/// Positional layout of a tree container. An internal id is an index into
/// `parent_of` / `row_of`; a parent handle is an internal id or absent,
/// absent meaning the root.
pub struct TreeLayout {
    /// Parent handle of each node.
    pub parent_of: Vec<Option<usize>>,
    /// Position of each node among its siblings.
    pub row_of: Vec<usize>,
    /// Ordered ids of the nodes directly under the root.
    pub root_children: Vec<usize>,
    /// Ordered ids of the nodes directly under each node.
    pub child_lists: Vec<Vec<usize>>,
}

impl TreeLayout {
    /// Number of nodes; valid internal ids are `[0, node_count)`.
    pub open spec fn node_count(self) -> int {
        self.parent_of@.len() as int
    }

    /// A parent handle is valid when absent (the root) or a valid id.
    pub open spec fn valid_parent(self, p: Option<usize>) -> bool {
        match p {
            None => true,
            Some(h) => (h as int) < self.node_count(),
        }
    }

    /// The ordered child ids under a parent handle.
    pub open spec fn children_of(self, p: Option<usize>) -> Seq<usize> {
        match p {
            None => self.root_children@,
            Some(h) => self.child_lists@[h as int]@,
        }
    }

    /// A node's own parent and row address it back to itself.
    pub open spec fn node_entry_ok(self, h: int) -> bool {
        let p = self.parent_of@[h];
        &&& self.valid_parent(p)
        &&& (self.row_of@[h] as int) < self.children_of(p).len()
        &&& self.children_of(p)[self.row_of@[h] as int] == h as usize
    }

    /// A child-list entry points at a node that records exactly this
    /// parent and row.
    pub open spec fn child_entry_ok(self, p: Option<usize>, r: int) -> bool {
        let c = self.children_of(p)[r];
        &&& (c as int) < self.node_count()
        &&& self.parent_of@[c as int] == p
        &&& (self.row_of@[c as int] as int) == r
    }

    /// Well-formedness: the parent/row records and the child lists are two
    /// views of one tree shape.
    pub open spec fn wf(self) -> bool {
        &&& self.row_of@.len() == self.parent_of@.len()
        &&& self.child_lists@.len() == self.parent_of@.len()
        &&& forall|h: int| 0 <= h < self.node_count() ==> #[trigger] self.node_entry_ok(h)
        &&& forall|p: Option<usize>, r: int|
            self.valid_parent(p) && 0 <= r < self.children_of(p).len()
                ==> #[trigger] self.child_entry_ok(p, r)
    }

    /// Checks well-formedness, so that a layout received from outside
    /// can be validated before the translation functions are used.
    pub fn is_wf(&self) -> (r: bool)
        ensures
            r == self.wf(),
    {
        let n = self.parent_of.len();
        if self.row_of.len() != n || self.child_lists.len() != n {
            return false;
        }
        // every node's parent and row address it back to itself
        let mut h: usize = 0;
        while h < n
            invariant
                h <= n,
                n == self.parent_of@.len(),
                self.row_of@.len() == n,
                self.child_lists@.len() == n,
                forall|g: int| 0 <= g < h ==> #[trigger] self.node_entry_ok(g),
            decreases n - h,
        {
            let p = self.parent_of[h];
            match p {
                Some(q) => {
                    if q >= n {
                        proof {
                            assert(!self.node_entry_ok(h as int));
                        }
                        return false;
                    }
                },
                None => {},
            }
            let kids = match p {
                None => &self.root_children,
                Some(q) => &self.child_lists[q],
            };
            let r = self.row_of[h];
            if r >= kids.len() || kids[r] != h {
                proof {
                    assert(!self.node_entry_ok(h as int));
                }
                return false;
            }
            proof {
                assert(self.node_entry_ok(h as int));
            }
            h += 1;
        }
        // every child-list entry points back at this parent and row
        if !self.children_ok(None) {
            proof {
                let k = choose|k: int|
                    0 <= k < self.children_of(None).len() && !(#[trigger] self.child_entry_ok(
                        None,
                        k,
                    ));
                assert(!self.wf());
            }
            return false;
        }
        let mut q: usize = 0;
        while q < n
            invariant
                q <= n,
                n == self.parent_of@.len(),
                self.row_of@.len() == n,
                self.child_lists@.len() == n,
                forall|g: int| 0 <= g < n ==> #[trigger] self.node_entry_ok(g),
                forall|r: int|
                    0 <= r < self.children_of(None).len() ==> #[trigger] self.child_entry_ok(
                        None,
                        r,
                    ),
                forall|g: int, r: int|
                    0 <= g < q && 0 <= r < self.children_of(Some(g as usize)).len()
                        ==> #[trigger] self.child_entry_ok(Some(g as usize), r),
            decreases n - q,
        {
            if !self.children_ok(Some(q)) {
                proof {
                    let k = choose|k: int|
                        0 <= k < self.children_of(Some(q)).len() && !(
                        #[trigger] self.child_entry_ok(Some(q), k));
                    assert(!self.wf());
                }
                return false;
            }
            q += 1;
        }
        proof {
            assert forall|p: Option<usize>, r: int|
                self.valid_parent(p) && 0 <= r < self.children_of(p).len() implies #[trigger] self
                .child_entry_ok(p, r) by {
                match p {
                    None => {},
                    Some(g) => {
                        assert(self.child_entry_ok(Some((g as int) as usize), r));
                    },
                }
            }
        }
        true
    }

    /// Checks that every entry of one parent's child list points back at
    /// that parent with its own position.
    fn children_ok(&self, p: Option<usize>) -> (r: bool)
        requires
            self.row_of@.len() == self.parent_of@.len(),
            self.child_lists@.len() == self.parent_of@.len(),
            self.valid_parent(p),
        ensures
            r == (forall|k: int|
                0 <= k < self.children_of(p).len() ==> #[trigger] self.child_entry_ok(p, k)),
    {
        let n = self.parent_of.len();
        let kids = match p {
            None => &self.root_children,
            Some(q) => &self.child_lists[q],
        };
        let m = kids.len();
        let mut k: usize = 0;
        while k < m
            invariant
                k <= m,
                n == self.parent_of@.len(),
                self.row_of@.len() == n,
                self.child_lists@.len() == n,
                self.valid_parent(p),
                kids@ == self.children_of(p),
                m == kids@.len(),
                forall|j: int| 0 <= j < k ==> #[trigger] self.child_entry_ok(p, j),
            decreases m - k,
        {
            let c = kids[k];
            if c >= n {
                proof {
                    assert(!self.child_entry_ok(p, k as int));
                }
                return false;
            }
            let cp = self.parent_of[c];
            let same_parent = match (cp, p) {
                (None, None) => true,
                (Some(a), Some(b)) => a == b,
                _ => false,
            };
            if !same_parent || self.row_of[c] != k {
                proof {
                    assert(!self.child_entry_ok(p, k as int));
                }
                return false;
            }
            proof {
                assert(self.child_entry_ok(p, k as int));
            }
            k += 1;
        }
        true
    }

    /// Number of rows under a parent handle.
    pub fn row_count(&self, p: Option<usize>) -> (n: usize)
        requires
            self.wf(),
            self.valid_parent(p),
        ensures
            n == self.children_of(p).len(),
    {
        match p {
            None => self.root_children.len(),
            Some(h) => self.child_lists[h].len(),
        }
    }

    /// The internal id at position `r` under parent handle `p`.
    pub fn index_at(&self, p: Option<usize>, r: usize) -> (h: usize)
        requires
            self.wf(),
            self.valid_parent(p),
            r < self.children_of(p).len(),
        ensures
            h == self.children_of(p)[r as int],
            (h as int) < self.node_count(),
            self.parent_of@[h as int] == p,
            self.row_of@[h as int] == r,
    {
        proof {
            assert(self.child_entry_ok(p, r as int));
        }
        match p {
            None => self.root_children[r],
            Some(q) => self.child_lists[q][r],
        }
    }

    /// The parent handle of a node.
    pub fn parent(&self, h: usize) -> (p: Option<usize>)
        requires
            self.wf(),
            (h as int) < self.node_count(),
        ensures
            p == self.parent_of@[h as int],
            self.valid_parent(p),
    {
        proof {
            assert(self.node_entry_ok(h as int));
        }
        self.parent_of[h]
    }

    /// The position of a node among its siblings.
    pub fn row(&self, h: usize) -> (r: usize)
        requires
            self.wf(),
            (h as int) < self.node_count(),
        ensures
            r == self.row_of@[h as int],
            (r as int) < self.children_of(self.parent_of@[h as int]).len(),
    {
        proof {
            assert(self.node_entry_ok(h as int));
        }
        self.row_of[h]
    }

    /// Bounds-checked lookup used before mutating operations: the signed
    /// boundary row is translated first, and an out-of-range or negative
    /// row yields the absent sentinel, never a clamped id.
    pub fn check_row(&self, p: Option<usize>, row: i32) -> (res: Option<usize>)
        requires
            self.wf(),
            self.valid_parent(p),
        ensures
            row < 0 ==> res is None,
            row >= 0 && (row as int) < self.children_of(p).len()
                ==> res == Some(self.children_of(p)[row as int]),
            row >= 0 && (row as int) >= self.children_of(p).len() ==> res is None,
    {
        match row_from_boundary(row) {
            None => None,
            Some(r) => {
                if r < self.row_count(p) {
                    Some(self.index_at(p, r))
                } else {
                    None
                }
            },
        }
    }
}

/// Round-trip identity: addressing a node by its own parent and row finds
/// the node itself, for every internal id of a well-formed layout.
pub proof fn lemma_index_of_parent_row(t: TreeLayout, h: int)
    requires
        t.wf(),
        0 <= h < t.node_count(),
    ensures
        t.children_of(t.parent_of@[h])[t.row_of@[h] as int] == h as usize,
{
    assert(t.node_entry_ok(h));
}

/// Round-trip identity the other way: the node found under a valid parent
/// handle at an in-range row records exactly that parent and that row.
pub proof fn lemma_parent_row_of_index(t: TreeLayout, p: Option<usize>, r: int)
    requires
        t.wf(),
        t.valid_parent(p),
        0 <= r < t.children_of(p).len(),
    ensures
        t.parent_of@[t.children_of(p)[r] as int] == p,
        (t.row_of@[t.children_of(p)[r] as int] as int) == r,
{
    assert(t.child_entry_ok(p, r));
}

/// The transfer of one variable-length optional value, re-expressed as
/// data: the sequence of deliveries the emitted getter performs, each
/// carrying the value's bytes. Absence is "the callback never ran" — zero
/// deliveries; a present value is delivered exactly once, with length
/// equal to its byte length. No sentinel length ever stands for absence.
pub fn complex_transfers(value: Option<Vec<u8>>) -> (calls: Vec<Vec<u8>>)
    ensures
        value is None ==> calls@.len() == 0,
        value matches Some(v) ==> calls@.len() == 1 && calls@[0] == v,
{
    match value {
        None => Vec::new(),
        Some(v) => {
            let mut calls: Vec<Vec<u8>> = Vec::new();
            calls.push(v);
            calls
        },
    }
}

/// The transfer of one variable-length required value: delivered exactly
/// once, with its byte length.
pub fn complex_transfer_required(value: Vec<u8>) -> (calls: Vec<Vec<u8>>)
    ensures
        calls@.len() == 1,
        calls@[0] == value,
{
    let mut calls: Vec<Vec<u8>> = Vec::new();
    calls.push(value);
    calls
}

} // verus!
