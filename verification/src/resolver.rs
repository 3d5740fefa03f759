//! Role and column resolution: which columns an object exposes, which
//! named roles answer in each, and the rejection of a schema that claims
//! one (column, role) pair twice.

use vstd::prelude::*;
use crate::schema::{Config, ItemProperty, Object, Role};

verus! {

/// Whether some property of `o` answers in column `c`.
pub open spec fn col_referenced(o: Object, c: int) -> bool {
    exists|i: int|
        0 <= i < o.item_properties@.len() && (#[trigger] o.item_properties@[i]).visible_in(c)
}

/// The distinct columns referenced across all properties' role maps, the
/// implicit column 0 of every property included.
pub open spec fn referenced_columns(o: Object) -> Set<int> {
    Set::new(|c: int| col_referenced(o, c))
}

/// The number of columns the object exposes.
pub open spec fn spec_column_count(o: Object) -> int {
    referenced_columns(o).len() as int
}

/// Referenced columns below `n`.
spec fn ref_below(o: Object, n: int) -> Set<int> {
    Set::new(|c: int| 0 <= c < n && col_referenced(o, c))
}

/// How many columns below `n` are referenced.
spec fn count_referenced(o: Object, n: int) -> int
    decreases n,
{
    if n <= 0 {
        0
    } else {
        count_referenced(o, n - 1) + if col_referenced(o, n - 1) {
            1int
        } else {
            0int
        }
    }
}

proof fn lemma_count_is_card(o: Object, n: int)
    requires
        n >= 0,
    ensures
        ref_below(o, n).finite(),
        ref_below(o, n).len() == count_referenced(o, n),
    decreases n,
{
    if n == 0 {
        assert(ref_below(o, 0) =~= Set::<int>::empty());
    } else {
        lemma_count_is_card(o, n - 1);
        if col_referenced(o, n - 1) {
            assert(ref_below(o, n) =~= ref_below(o, n - 1).insert(n - 1));
        } else {
            assert(ref_below(o, n) =~= ref_below(o, n - 1));
        }
    }
}

/// Whether property `p` answers in column `c`.
pub fn is_visible_in(p: &ItemProperty, c: usize) -> (r: bool)
    ensures
        r == p.visible_in(c as int),
{
    if c == 0 {
        true
    } else if c < p.roles.len() {
        p.roles[c].len() > 0
    } else {
        false
    }
}

/// Whether column `c` is referenced by any property of `o`.
fn is_col_referenced(o: &Object, c: usize) -> (r: bool)
    ensures
        r == col_referenced(*o, c as int),
{
    let n = o.item_properties.len();
    let mut i: usize = 0;
    while i < n
        invariant
            i <= n,
            n == o.item_properties@.len(),
            forall|j: int|
                0 <= j < i ==> !(#[trigger] o.item_properties@[j]).visible_in(c as int),
        decreases n - i,
    {
        if is_visible_in(&o.item_properties[i], c) {
            return true;
        }
        i += 1;
    }
    false
}

/// One past the longest role list of any property; every column a label
/// lives in is below this bound.
fn roles_len_bound(o: &Object) -> (m: usize)
    requires
        o.bounded(),
    ensures
        m <= 0x7FFF_FFFE,
        forall|i: int|
            0 <= i < o.item_properties@.len()
                ==> (#[trigger] o.item_properties@[i]).roles@.len() <= m as int,
{
    let n = o.item_properties.len();
    let mut m: usize = 0;
    let mut i: usize = 0;
    while i < n
        invariant
            i <= n,
            n == o.item_properties@.len(),
            o.bounded(),
            m <= 0x7FFF_FFFE,
            forall|j: int|
                0 <= j < i ==> (#[trigger] o.item_properties@[j]).roles@.len() <= m as int,
        decreases n - i,
    {
        let l = o.item_properties[i].roles.len();
        if l > m {
            m = l;
        }
        i += 1;
    }
    m
}

/// Number of columns `o` exposes: the number of distinct columns
/// referenced across all properties' role maps, the implicit column 0 of
/// every property included.
pub fn column_count(o: &Object) -> (n: usize)
    requires
        o.bounded(),
    ensures
        n as int == spec_column_count(*o),
        n <= 0x7FFF_FFFF,
{
    let nprops = o.item_properties.len();
    if nprops == 0 {
        proof {
            assert(referenced_columns(*o) =~= Set::<int>::empty());
        }
        return 0;
    }
    let m = roles_len_bound(o);
    let bound: usize = if m == 0 {
        1
    } else {
        m
    };
    let mut cnt: usize = 0;
    let mut c: usize = 0;
    while c < bound
        invariant
            c <= bound,
            cnt <= c,
            cnt as int == count_referenced(*o, c as int),
        decreases bound - c,
    {
        if is_col_referenced(o, c) {
            cnt += 1;
        }
        c += 1;
    }
    proof {
        lemma_count_is_card(*o, bound as int);
        assert forall|d: int| col_referenced(*o, d) implies 0 <= d < bound as int by {
            let i = choose|i: int|
                0 <= i < o.item_properties@.len()
                    && (#[trigger] o.item_properties@[i]).visible_in(d);
            if d != 0 {
                assert(o.item_properties@[i].labels_at(d).len() > 0);
                assert(0 <= d < o.item_properties@[i].roles@.len());
            }
        }
        assert(referenced_columns(*o) =~= ref_below(*o, bound as int));
    }
    cnt
}

/// A role repeated inside one label list.
pub open spec fn has_repeat(s: Seq<Role>) -> bool {
    exists|a: int, b: int| 0 <= a < b < s.len() && s[a] == s[b]
}

/// A role claimed by both lists.
pub open spec fn share_role(s: Seq<Role>, t: Seq<Role>) -> bool {
    exists|a: int, b: int| 0 <= a < s.len() && 0 <= b < t.len() && s[a] == t[b]
}

/// Two claims of one (column, role) pair in column `c`: either one
/// property lists a named role twice there, or two properties list the
/// same named role there.
pub open spec fn spec_dup_in_column(o: Object, c: int) -> bool {
    ||| exists|i: int|
        0 <= i < o.item_properties@.len() && has_repeat(
            (#[trigger] o.item_properties@[i]).labels_at(c),
        )
    ||| exists|i: int, j: int|
        0 <= i < j < o.item_properties@.len() && #[trigger] share_role(
            o.item_properties@[i].labels_at(c),
            o.item_properties@[j].labels_at(c),
        )
}

/// A schema claiming one (column, role) pair twice would emit dispatch
/// cases that can never be reached; generation must reject it.
pub open spec fn spec_has_duplicate(o: Object) -> bool {
    exists|c: int| spec_dup_in_column(o, c)
}

fn list_has_repeat(v: &Vec<Role>) -> (r: bool)
    ensures
        r == has_repeat(v@),
{
    let n = v.len();
    let mut a: usize = 0;
    while a < n
        invariant
            a <= n,
            n == v@.len(),
            forall|x: int, y: int| 0 <= x < y < n && x < a ==> v@[x] != v@[y],
        decreases n - a,
    {
        let mut b = a + 1;
        while b < n
            invariant
                a < b <= n || (a + 1 == b && b > n),
                a < n,
                n == v@.len(),
                forall|y: int| a < y < b ==> v@[a as int] != v@[y],
        decreases n - b,
        {
            if v[a] == v[b] {
                return true;
            }
            b += 1;
        }
        a += 1;
    }
    false
}

fn lists_share(v: &Vec<Role>, w: &Vec<Role>) -> (r: bool)
    ensures
        r == share_role(v@, w@),
{
    let n = v.len();
    let m = w.len();
    let mut a: usize = 0;
    while a < n
        invariant
            a <= n,
            n == v@.len(),
            m == w@.len(),
            forall|x: int, y: int| 0 <= x < a && 0 <= y < m ==> v@[x] != w@[y],
        decreases n - a,
    {
        let mut b: usize = 0;
        while b < m
            invariant
                b <= m,
                a < n,
                n == v@.len(),
                m == w@.len(),
                forall|y: int| 0 <= y < b ==> v@[a as int] != w@[y],
            decreases m - b,
        {
            if v[a] == w[b] {
                return true;
            }
            b += 1;
        }
        a += 1;
    }
    false
}

/// Checks column `c` of `o` for a doubly claimed (column, role) pair.
fn dup_in_column(o: &Object, c: usize) -> (r: bool)
    ensures
        r == spec_dup_in_column(*o, c as int),
{
    let n = o.item_properties.len();
    let mut i: usize = 0;
    while i < n
        invariant
            i <= n,
            n == o.item_properties@.len(),
            forall|k: int|
                0 <= k < i ==> !has_repeat((#[trigger] o.item_properties@[k]).labels_at(c as int)),
            forall|k: int, l: int|
                0 <= k < i && k < l < n ==> !(#[trigger] share_role(
                    o.item_properties@[k].labels_at(c as int),
                    o.item_properties@[l].labels_at(c as int),
                )),
        decreases n - i,
    {
        let pi = &o.item_properties[i];
        if c < pi.roles.len() {
            if list_has_repeat(&pi.roles[c]) {
                return true;
            }
            let mut j = i + 1;
            while j < n
                invariant
                    i < j <= n,
                    n == o.item_properties@.len(),
                    c < o.item_properties@[i as int].roles@.len(),
                    forall|l: int|
                        i < l < j ==> !(#[trigger] share_role(
                            o.item_properties@[i as int].labels_at(c as int),
                            o.item_properties@[l].labels_at(c as int),
                        )),
                decreases n - j,
            {
                let pj = &o.item_properties[j];
                if c < pj.roles.len() {
                    if lists_share(&o.item_properties[i].roles[c], &pj.roles[c]) {
                        return true;
                    }
                } else {
                    proof {
                        assert(o.item_properties@[j as int].labels_at(c as int).len() == 0);
                    }
                }
                j += 1;
            }
        } else {
            proof {
                assert(o.item_properties@[i as int].labels_at(c as int).len() == 0);
            }
        }
        i += 1;
    }
    false
}

/// Checks the whole object for a doubly claimed (column, role) pair.
pub fn has_duplicate(o: &Object) -> (r: bool)
    requires
        o.bounded(),
    ensures
        r == spec_has_duplicate(*o),
{
    let m = roles_len_bound(o);
    let mut c: usize = 0;
    while c < m
        invariant
            c <= m,
            o.bounded(),
            forall|i: int|
                0 <= i < o.item_properties@.len()
                    ==> (#[trigger] o.item_properties@[i]).roles@.len() <= m as int,
            forall|d: int| 0 <= d < c ==> !spec_dup_in_column(*o, d),
        decreases m - c,
    {
        if dup_in_column(o, c) {
            return true;
        }
        c += 1;
    }
    proof {
        assert forall|d: int| !spec_dup_in_column(*o, d) by {
            if 0 <= d < m as int {
            } else {
                assert forall|i: int|
                    0 <= i < o.item_properties@.len() implies (
                #[trigger] o.item_properties@[i]).labels_at(d).len() == 0 by {
                    assert(o.item_properties@[i].roles@.len() <= m as int);
                }
            }
        }
    }
    false
}

/// No value occurs twice.
pub open spec fn no_repeats_int(s: Seq<int>) -> bool {
    forall|a: int, b: int| 0 <= a < b < s.len() ==> s[a] != s[b]
}

/// The numeric case labels property `i` contributes to column `c`'s
/// dispatch, in emission order: its named roles' values, then its
/// default role — or nothing where it is not visible there.
pub open spec fn prop_dispatch_labels(o: Object, c: int, i: int) -> Seq<int> {
    let p = o.item_properties@[i];
    if p.visible_in(c) {
        p.labels_at(c).map_values(|r: Role| r.spec_value()).push(crate::spec_default_role(i))
    } else {
        Seq::empty()
    }
}

/// The case labels the first `n` properties contribute to column `c`.
pub open spec fn dispatch_labels_upto(o: Object, c: int, n: int) -> Seq<int>
    decreases n,
{
    if n <= 0 {
        Seq::empty()
    } else {
        dispatch_labels_upto(o, c, n - 1) + prop_dispatch_labels(o, c, n - 1)
    }
}

/// All case labels of column `c`'s dispatch, in emission order.
pub open spec fn dispatch_labels(o: Object, c: int) -> Seq<int> {
    dispatch_labels_upto(o, c, o.item_properties@.len() as int)
}

/// Where a label among the first `n` properties' contributions can come
/// from: a named role some visible property lists for `c`, or a visible
/// property's default role.
spec fn label_source(o: Object, c: int, n: int, x: int) -> bool {
    ||| exists|i: int, k: int|
        0 <= i < n && o.item_properties@[i].visible_in(c) && 0 <= k
            < o.item_properties@[i].labels_at(c).len() && x == (#[trigger] o.item_properties@[
            i
        ].labels_at(c)[k]).spec_value()
    ||| exists|i: int|
        0 <= i < n && (#[trigger] o.item_properties@[i]).visible_in(c) && x
            == crate::spec_default_role(i)
}

proof fn lemma_no_repeats_concat(s: Seq<int>, t: Seq<int>)
    requires
        no_repeats_int(s),
        no_repeats_int(t),
        forall|x: int| s.contains(x) ==> !t.contains(x),
    ensures
        no_repeats_int(s + t),
{
    assert forall|a: int, b: int| 0 <= a < b < (s + t).len() implies (s + t)[a] != (s + t)[b] by {
        if b < s.len() {
        } else if a >= s.len() {
            assert((s + t)[a] == t[a - s.len()]);
            assert((s + t)[b] == t[b - s.len()]);
        } else {
            assert((s + t)[a] == s[a]);
            assert((s + t)[b] == t[b - s.len()]);
            assert(s.contains(s[a]));
            assert(t.contains(t[b - s.len()]));
        }
    }
}

proof fn lemma_dispatch_labels_ok(o: Object, c: int, n: int)
    requires
        !spec_dup_in_column(o, c),
        0 <= n <= o.item_properties@.len(),
    ensures
        no_repeats_int(dispatch_labels_upto(o, c, n)),
        forall|x: int| dispatch_labels_upto(o, c, n).contains(x) ==> label_source(o, c, n, x),
    decreases n,
{
    if n > 0 {
        lemma_dispatch_labels_ok(o, c, n - 1);
        let s = dispatch_labels_upto(o, c, n - 1);
        let t = prop_dispatch_labels(o, c, n - 1);
        let p = o.item_properties@[n - 1];
        if p.visible_in(c) {
            let named = p.labels_at(c).map_values(|r: Role| r.spec_value());
            // within the new contribution: named values are pairwise
            // distinct (else the property repeats a role), and the
            // default sits above every named value
            assert forall|a: int, b: int| 0 <= a < b < t.len() implies t[a] != t[b] by {
                if b < named.len() {
                    if t[a] == t[b] {
                        assert(p.labels_at(c)[a] == p.labels_at(c)[b]);
                        assert(has_repeat(p.labels_at(c)));
                    }
                } else {
                    assert(t[b] == crate::spec_default_role(n - 1));
                    assert(t[a] == named[a]);
                    assert(p.labels_at(c)[a].spec_value() < 256);
                }
            }
            // nothing in the earlier labels recurs here
            assert forall|x: int| s.contains(x) implies !t.contains(x) by {
                if t.contains(x) {
                    let b = choose|b: int| 0 <= b < t.len() && t[b] == x;
                    if b < named.len() {
                        // a named role of property n-1, already claimed
                        // earlier: a shared (column, role) pair
                        if label_source(o, c, n - 1, x) {
                            assert(p.labels_at(c)[b].spec_value() < 256);
                            if exists|i: int, k: int|
                                0 <= i < n - 1 && o.item_properties@[i].visible_in(c)
                                    && 0 <= k < o.item_properties@[i].labels_at(c).len() && x
                                    == (#[trigger] o.item_properties@[i].labels_at(c)[k]).spec_value() {
                                let (i, k) = choose|i: int, k: int|
                                    0 <= i < n - 1 && o.item_properties@[i].visible_in(c) && 0 <= k
                                        < o.item_properties@[i].labels_at(c).len() && x
                                        == (#[trigger] o.item_properties@[i].labels_at(c)[k]).spec_value();
                                assert(o.item_properties@[i].labels_at(c)[k] == p.labels_at(c)[b]);
                                assert(share_role(
                                    o.item_properties@[i].labels_at(c),
                                    o.item_properties@[n - 1].labels_at(c),
                                ));
                            } else {
                                let i = choose|i: int|
                                    0 <= i < n - 1 && (
                                    #[trigger] o.item_properties@[i]).visible_in(c) && x
                                        == crate::spec_default_role(i);
                                assert(x >= 256);
                            }
                        }
                    } else {
                        // the fresh default role: earlier defaults carry
                        // smaller offsets, named values sit below the base
                        assert(t[b] == crate::spec_default_role(n - 1));
                        if label_source(o, c, n - 1, x) {
                            if exists|i: int|
                                0 <= i < n - 1 && (#[trigger] o.item_properties@[i]).visible_in(c)
                                    && x == crate::spec_default_role(i) {
                                let i = choose|i: int|
                                    0 <= i < n - 1 && (
                                    #[trigger] o.item_properties@[i]).visible_in(c) && x
                                        == crate::spec_default_role(i);
                                assert(i != n - 1);
                            } else {
                                let (i, k) = choose|i: int, k: int|
                                    0 <= i < n - 1 && o.item_properties@[i].visible_in(c) && 0 <= k
                                        < o.item_properties@[i].labels_at(c).len() && x
                                        == (#[trigger] o.item_properties@[i].labels_at(c)[k]).spec_value();
                                assert(x < 256);
                            }
                        }
                    }
                }
            }
            lemma_no_repeats_concat(s, t);
        } else {
            assert(dispatch_labels_upto(o, c, n) =~= s);
        }
        // each new label has a source among the first n properties
        assert forall|x: int| dispatch_labels_upto(o, c, n).contains(x) implies label_source(
            o,
            c,
            n,
            x,
        ) by {
            let a = choose|a: int|
                0 <= a < dispatch_labels_upto(o, c, n).len() && dispatch_labels_upto(o, c, n)[a]
                    == x;
            if a < s.len() {
                assert(s.contains(x));
                assert(label_source(o, c, n - 1, x));
            } else {
                assert(t.contains(t[a - s.len()]));
                assert(p.visible_in(c));
                let named = p.labels_at(c).map_values(|r: Role| r.spec_value());
                if a - s.len() < named.len() {
                    assert(x == p.labels_at(c)[a - s.len()].spec_value());
                } else {
                    assert(x == crate::spec_default_role(n - 1));
                }
            }
        }
    }
}

/// With no doubly claimed (column, role) pair, every case label of every
/// column's dispatch is distinct: duplicate, unreachable cases are
/// prevented by construction, and "first match wins" never has a second
/// match to hide.
pub proof fn lemma_dispatch_labels_distinct(o: Object, c: int)
    requires
        !spec_has_duplicate(o),
    ensures
        no_repeats_int(dispatch_labels(o, c)),
{
    assert(!spec_dup_in_column(o, c));
    lemma_dispatch_labels_ok(o, c, o.item_properties@.len() as int);
}

/// Why generation fails.
#[derive(Clone, Copy, PartialEq, Eq, Structural, Debug)]
pub enum GenError {
    /// The object at this position claims one (column, role) pair twice,
    /// which would emit dispatch cases that can never match.
    DuplicateRole { object_index: usize },
}

/// Rejects a schema in which some object claims one (column, role) pair
/// twice; a generation pass emits nothing for such a schema.
pub fn check_config(conf: &Config) -> (r: Result<(), GenError>)
    requires
        conf.bounded(),
    ensures
        r is Ok <==> (forall|k: int|
            0 <= k < conf.objects@.len() ==> !spec_has_duplicate(#[trigger] conf.objects@[k])),
        r matches Err(GenError::DuplicateRole { object_index }) ==> {
            &&& (object_index as int) < conf.objects@.len()
            &&& spec_has_duplicate(conf.objects@[object_index as int])
            &&& forall|k: int|
                0 <= k < object_index ==> !spec_has_duplicate(#[trigger] conf.objects@[k])
        },
{
    let n = conf.objects.len();
    let mut k: usize = 0;
    while k < n
        invariant
            k <= n,
            n == conf.objects@.len(),
            conf.bounded(),
            forall|l: int| 0 <= l < k ==> !spec_has_duplicate(#[trigger] conf.objects@[l]),
        decreases n - k,
    {
        if has_duplicate(&conf.objects[k]) {
            return Err(GenError::DuplicateRole { object_index: k });
        }
        k += 1;
    }
    Ok(())
}

} // verus!
