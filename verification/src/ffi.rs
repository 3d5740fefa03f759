//! The implementation-side emitter: one source unit per object defining
//! the function surface the native adapter declares — a getter and, for a
//! writable property, a setter (plus a clear-to-absent entry point when
//! the property is optional) for every property, and the row-count,
//! mutation and paging entry points of the containers.

use vstd::prelude::*;
use vstd::string::*;
use crate::schema::{ItemProperty, Object, ObjectKind};
use crate::surface::{
    clear_sym, getter_sym, impl_type, obj_sym, setter_sym, spec_transfer_mode, surface_syms,
    transfer_mode, TransferMode,
};

verus! {

/// Declaration of the positional argument each accessor takes beside the
/// object handle: nothing for a record, a signed row for a flat
/// container, an internal id for a tree.
pub open spec fn idx_decl(o: Object) -> Seq<char> {
    match o.kind {
        ObjectKind::Record => ""@,
        ObjectKind::FlatContainer => ", row: c_int"@,
        ObjectKind::TreeContainer => ", id: usize"@,
    }
}

fn idx_decl_str(o: &Object) -> (r: &'static str)
    ensures
        r@ == idx_decl(*o),
{
    match o.kind {
        ObjectKind::Record => "",
        ObjectKind::FlatContainer => ", row: c_int",
        ObjectKind::TreeContainer => ", id: usize",
    }
}

/// The argument list of a read access on the implementation object.
pub open spec fn call_args(o: Object) -> Seq<char> {
    match o.kind {
        ObjectKind::Record => "()"@,
        ObjectKind::FlatContainer => "(r)"@,
        ObjectKind::TreeContainer => "(id)"@,
    }
}

fn call_args_str(o: &Object) -> (r: &'static str)
    ensures
        r@ == call_args(*o),
{
    match o.kind {
        ObjectKind::Record => "()",
        ObjectKind::FlatContainer => "(r)",
        ObjectKind::TreeContainer => "(id)",
    }
}

/// Opening of a write access's argument list.
pub open spec fn set_open(o: Object) -> Seq<char> {
    match o.kind {
        ObjectKind::Record => "("@,
        ObjectKind::FlatContainer => "(r, "@,
        ObjectKind::TreeContainer => "(id, "@,
    }
}

fn set_open_str(o: &Object) -> (r: &'static str)
    ensures
        r@ == set_open(*o),
{
    match o.kind {
        ObjectKind::Record => "(",
        ObjectKind::FlatContainer => "(r, ",
        ObjectKind::TreeContainer => "(id, ",
    }
}

/// The row guard of a flat container: the signed boundary row is
/// translated before any use, and a negative row leaves through the
/// given arm instead of ever reaching a data access. The other kinds
/// need no guard: a record has no row, a tree id arrives bounds-checked.
pub open spec fn guard_text(o: Object, none_arm: Seq<char>) -> Seq<char> {
    match o.kind {
        ObjectKind::FlatContainer => "    let r = match to_usize(row) {\n        Some(r) => r,\n        None => return"@
            + none_arm + ",\n    };\n"@,
        _ => Seq::empty(),
    }
}

fn guard_string(o: &Object, none_arm: &str) -> (r: String)
    ensures
        r@ == guard_text(*o, none_arm@),
{
    let mut s = String::new();
    match o.kind {
        ObjectKind::FlatContainer => {
            s.append("    let r = match to_usize(row) {\n        Some(r) => r,\n        None => return");
            s.append(none_arm);
            s.append(",\n    };\n");
        },
        _ => {},
    }
    proof {
        assert(s@ =~= guard_text(*o, none_arm@));
    }
    s
}

/// Spelling of the value a required direct getter falls back to when the
/// boundary row is out of domain.
pub open spec fn default_lit(p: ItemProperty) -> Seq<char> {
    match p.value_type {
        crate::schema::ValueType::Bool => " false"@,
        _ => " 0"@,
    }
}

fn default_lit_str(p: &ItemProperty) -> (r: &'static str)
    ensures
        r@ == default_lit(*p),
{
    match p.value_type {
        crate::schema::ValueType::Bool => " false",
        _ => " 0",
    }
}

/// The emitted getter of property `i`. A fixed-size required value is
/// returned by value; a fixed-size optional value as a tagged
/// present/absent structure; a variable-length value is delivered
/// through the callback exactly once, or — when optional — zero or one
/// times, zero meaning absent.
pub open spec fn getter_text(o: Object, i: int) -> Seq<char> {
    let p = o.item_properties@[i];
    match spec_transfer_mode(p) {
        TransferMode::Direct => "pub fn "@ + getter_sym(o, i) + "(obj: &"@ + o.name@
            + idx_decl(o) + ") -> "@ + impl_type(p.value_type) + " {\n"@
            + guard_text(o, default_lit(p)) + "    obj."@ + p.name@ + call_args(o)
            + "\n}\n\n"@,
        TransferMode::OptionalDirect => "pub fn "@ + getter_sym(o, i) + "(obj: &"@ + o.name@
            + idx_decl(o) + ") -> COption<"@ + impl_type(p.value_type) + "> {\n"@
            + guard_text(o, " COption::absent()"@) + "    obj."@ + p.name@ + call_args(o)
            + ".into()\n}\n\n"@,
        TransferMode::ComplexCallback => "pub fn "@ + getter_sym(o, i) + "(obj: &"@ + o.name@
            + idx_decl(o) + ", d: DestPtr, set: SetBytes) {\n"@ + guard_text(o, ""@)
            + "    let data = obj."@ + p.name@ + call_args(o)
            + ";\n    set(d, data.as_ptr(), to_c_int(data.len()));\n}\n\n"@,
        TransferMode::OptionalComplexCallback => "pub fn "@ + getter_sym(o, i) + "(obj: &"@
            + o.name@ + idx_decl(o) + ", d: DestPtr, set: SetBytes) {\n"@ + guard_text(o, ""@)
            + "    if let Some(data) = obj."@ + p.name@ + call_args(o)
            + " {\n        set(d, data.as_ptr(), to_c_int(data.len()));\n    }\n}\n\n"@,
    }
}

/// Emits the getter of property `i`.
pub fn getter_fn_text(o: &Object, i: usize) -> (r: String)
    requires
        (i as int) < o.item_properties@.len(),
    ensures
        r@ == getter_text(*o, i as int),
{
    let p = &o.item_properties[i];
    let mut s = String::new();
    s.append("pub fn ");
    let sym = crate::surface::getter_symbol(o, i);
    s.append(sym.as_str());
    s.append("(obj: &");
    s.append(o.name.as_str());
    s.append(idx_decl_str(o));
    match transfer_mode(p) {
        TransferMode::Direct => {
            s.append(") -> ");
            s.append(crate::surface::impl_type_str(p.value_type));
            s.append(" {\n");
            let g = guard_string(o, default_lit_str(p));
            s.append(g.as_str());
            s.append("    obj.");
            s.append(p.name.as_str());
            s.append(call_args_str(o));
            s.append("\n}\n\n");
        },
        TransferMode::OptionalDirect => {
            s.append(") -> COption<");
            s.append(crate::surface::impl_type_str(p.value_type));
            s.append("> {\n");
            let g = guard_string(o, " COption::absent()");
            s.append(g.as_str());
            s.append("    obj.");
            s.append(p.name.as_str());
            s.append(call_args_str(o));
            s.append(".into()\n}\n\n");
        },
        TransferMode::ComplexCallback => {
            s.append(", d: DestPtr, set: SetBytes) {\n");
            let g = guard_string(o, "");
            s.append(g.as_str());
            s.append("    let data = obj.");
            s.append(p.name.as_str());
            s.append(call_args_str(o));
            s.append(";\n    set(d, data.as_ptr(), to_c_int(data.len()));\n}\n\n");
        },
        TransferMode::OptionalComplexCallback => {
            s.append(", d: DestPtr, set: SetBytes) {\n");
            let g = guard_string(o, "");
            s.append(g.as_str());
            s.append("    if let Some(data) = obj.");
            s.append(p.name.as_str());
            s.append(call_args_str(o));
            s.append(" {\n        set(d, data.as_ptr(), to_c_int(data.len()));\n    }\n}\n\n");
        },
    }
    proof {
        assert(s@ =~= getter_text(*o, i as int));
    }
    s
}

/// The value expression a setter hands to the implementation object: an
/// optional property receives the present case of its tagged value.
pub open spec fn set_value_text(p: ItemProperty) -> Seq<char> {
    if p.optional {
        "Some(v))"@
    } else {
        "v)"@
    }
}

/// The emitted setter of a writable property `i`: a rejected write
/// reports `false`, an out-of-domain row is rejected before any access.
pub open spec fn setter_text(o: Object, i: int) -> Seq<char> {
    let p = o.item_properties@[i];
    "pub fn "@ + setter_sym(o, i) + "(obj: &mut "@ + o.name@ + idx_decl(o) + ", v: "@
        + impl_type(p.value_type) + ") -> bool {\n"@ + guard_text(o, " false"@) + "    obj.set_"@
        + p.name@ + set_open(o) + set_value_text(p) + "\n}\n\n"@
}

/// Emits the setter of property `i`.
pub fn setter_fn_text(o: &Object, i: usize) -> (r: String)
    requires
        (i as int) < o.item_properties@.len(),
    ensures
        r@ == setter_text(*o, i as int),
{
    let p = &o.item_properties[i];
    let mut s = String::new();
    s.append("pub fn ");
    let sym = crate::surface::setter_symbol(o, i);
    s.append(sym.as_str());
    s.append("(obj: &mut ");
    s.append(o.name.as_str());
    s.append(idx_decl_str(o));
    s.append(", v: ");
    s.append(crate::surface::impl_type_str(p.value_type));
    s.append(") -> bool {\n");
    let g = guard_string(o, " false");
    s.append(g.as_str());
    s.append("    obj.set_");
    s.append(p.name.as_str());
    s.append(set_open_str(o));
    if p.optional {
        s.append("Some(v))");
    } else {
        s.append("v)");
    }
    s.append("\n}\n\n");
    proof {
        assert(s@ =~= setter_text(*o, i as int));
    }
    s
}

/// The emitted clear-to-absent entry point of a writable optional
/// property `i`.
pub open spec fn clear_text(o: Object, i: int) -> Seq<char> {
    let p = o.item_properties@[i];
    "pub fn "@ + clear_sym(o, i) + "(obj: &mut "@ + o.name@ + idx_decl(o) + ") -> bool {\n"@
        + guard_text(o, " false"@) + "    obj.set_"@ + p.name@ + set_open(o) + "None)\n}\n\n"@
}

/// Emits the clear-to-absent entry point of property `i`.
pub fn clear_fn_text(o: &Object, i: usize) -> (r: String)
    requires
        (i as int) < o.item_properties@.len(),
    ensures
        r@ == clear_text(*o, i as int),
{
    let p = &o.item_properties[i];
    let mut s = String::new();
    s.append("pub fn ");
    let sym = crate::surface::clear_symbol(o, i);
    s.append(sym.as_str());
    s.append("(obj: &mut ");
    s.append(o.name.as_str());
    s.append(idx_decl_str(o));
    s.append(") -> bool {\n");
    let g = guard_string(o, " false");
    s.append(g.as_str());
    s.append("    obj.set_");
    s.append(p.name.as_str());
    s.append(set_open_str(o));
    s.append("None)\n}\n\n");
    proof {
        assert(s@ =~= clear_text(*o, i as int));
    }
    s
}

/// Everything property `i` contributes to the unit.
pub open spec fn prop_text(o: Object, i: int) -> Seq<char> {
    let p = o.item_properties@[i];
    if p.writable {
        if p.optional {
            getter_text(o, i) + setter_text(o, i) + clear_text(o, i)
        } else {
            getter_text(o, i) + setter_text(o, i)
        }
    } else {
        getter_text(o, i)
    }
}

/// The contributions of the first `n` properties, in property order.
pub open spec fn props_text_upto(o: Object, n: int) -> Seq<char>
    decreases n,
{
    if n <= 0 {
        Seq::empty()
    } else {
        props_text_upto(o, n - 1) + prop_text(o, n - 1)
    }
}

/// Emits the accessor functions of every property, in property order.
pub fn props_fn_text(o: &Object) -> (r: String)
    ensures
        r@ == props_text_upto(*o, o.item_properties@.len() as int),
{
    let n = o.item_properties.len();
    let mut s = String::new();
    let mut i: usize = 0;
    while i < n
        invariant
            i <= n,
            n == o.item_properties@.len(),
            s@ == props_text_upto(*o, i as int),
        decreases n - i,
    {
        let g = getter_fn_text(o, i);
        s.append(g.as_str());
        if o.item_properties[i].writable {
            let t = setter_fn_text(o, i);
            s.append(t.as_str());
            if o.item_properties[i].optional {
                let c = clear_fn_text(o, i);
                s.append(c.as_str());
            }
        }
        proof {
            assert(s@ =~= props_text_upto(*o, i + 1 as int));
        }
        i += 1;
    }
    s
}

/// The row-count, mutation, paging and sort entry points of a flat
/// container: every signed row or count from the boundary is translated
/// first, and an out-of-domain value reports a rejected operation.
pub open spec fn flat_ops_text(o: Object) -> Seq<char> {
    "pub fn "@ + obj_sym(o, "row_count"@) + "(obj: &"@ + o.name@
        + ") -> c_int {\n    to_c_int(obj.row_count())\n}\n\n"@ + "pub fn "@ + obj_sym(
        o,
        "insert_rows"@,
    ) + "(obj: &mut "@ + o.name@
        + ", row: c_int, count: c_int) -> bool {\n    match (to_usize(row), to_usize(count)) {\n        (Some(row), Some(count)) => obj.insert_rows(row, count),\n        _ => false,\n    }\n}\n\n"@
        + "pub fn "@ + obj_sym(o, "remove_rows"@) + "(obj: &mut "@ + o.name@
        + ", row: c_int, count: c_int) -> bool {\n    match (to_usize(row), to_usize(count)) {\n        (Some(row), Some(count)) => obj.remove_rows(row, count),\n        _ => false,\n    }\n}\n\n"@
        + "pub fn "@ + obj_sym(o, "can_fetch_more"@) + "(obj: &"@ + o.name@
        + ") -> bool {\n    obj.can_fetch_more()\n}\n\n"@ + "pub fn "@ + obj_sym(o, "fetch_more"@)
        + "(obj: &mut "@ + o.name@ + ") {\n    obj.fetch_more()\n}\n\n"@ + "pub fn "@ + obj_sym(
        o,
        "sort"@,
    ) + "(obj: &mut "@ + o.name@
        + ", column: u8, order: SortOrder) {\n    obj.sort(column, order)\n}\n\n"@
}

fn flat_ops_fn_text(o: &Object) -> (r: String)
    ensures
        r@ == flat_ops_text(*o),
{
    let mut s = String::new();
    s.append("pub fn ");
    let a = crate::surface::obj_symbol(o, "row_count");
    s.append(a.as_str());
    s.append("(obj: &");
    s.append(o.name.as_str());
    s.append(") -> c_int {\n    to_c_int(obj.row_count())\n}\n\n");
    s.append("pub fn ");
    let b = crate::surface::obj_symbol(o, "insert_rows");
    s.append(b.as_str());
    s.append("(obj: &mut ");
    s.append(o.name.as_str());
    s.append(
        ", row: c_int, count: c_int) -> bool {\n    match (to_usize(row), to_usize(count)) {\n        (Some(row), Some(count)) => obj.insert_rows(row, count),\n        _ => false,\n    }\n}\n\n",
    );
    s.append("pub fn ");
    let c = crate::surface::obj_symbol(o, "remove_rows");
    s.append(c.as_str());
    s.append("(obj: &mut ");
    s.append(o.name.as_str());
    s.append(
        ", row: c_int, count: c_int) -> bool {\n    match (to_usize(row), to_usize(count)) {\n        (Some(row), Some(count)) => obj.remove_rows(row, count),\n        _ => false,\n    }\n}\n\n",
    );
    s.append("pub fn ");
    let d = crate::surface::obj_symbol(o, "can_fetch_more");
    s.append(d.as_str());
    s.append("(obj: &");
    s.append(o.name.as_str());
    s.append(") -> bool {\n    obj.can_fetch_more()\n}\n\n");
    s.append("pub fn ");
    let e = crate::surface::obj_symbol(o, "fetch_more");
    s.append(e.as_str());
    s.append("(obj: &mut ");
    s.append(o.name.as_str());
    s.append(") {\n    obj.fetch_more()\n}\n\n");
    s.append("pub fn ");
    let f = crate::surface::obj_symbol(o, "sort");
    s.append(f.as_str());
    s.append("(obj: &mut ");
    s.append(o.name.as_str());
    s.append(", column: u8, order: SortOrder) {\n    obj.sort(column, order)\n}\n\n");
    proof {
        assert(s@ =~= flat_ops_text(*o));
    }
    s
}

/// The row-count, paging, sort and translation entry points of a tree
/// container: a signed row from the boundary is translated before use,
/// and the bounds-checked lookup reports the absent sentinel for a
/// negative or out-of-range row.
pub open spec fn tree_ops_text(o: Object) -> Seq<char> {
    "pub fn "@ + obj_sym(o, "row_count"@) + "(obj: &"@ + o.name@
        + ", id: COption<usize>) -> c_int {\n    to_c_int(obj.row_count(id.into()))\n}\n\n"@
        + "pub fn "@ + obj_sym(o, "can_fetch_more"@) + "(obj: &"@ + o.name@
        + ", id: COption<usize>) -> bool {\n    obj.can_fetch_more(id.into())\n}\n\n"@ + "pub fn "@
        + obj_sym(o, "fetch_more"@) + "(obj: &mut "@ + o.name@
        + ", id: COption<usize>) {\n    obj.fetch_more(id.into())\n}\n\n"@ + "pub fn "@ + obj_sym(
        o,
        "sort"@,
    ) + "(obj: &mut "@ + o.name@
        + ", column: u8, order: SortOrder) {\n    obj.sort(column, order)\n}\n\n"@ + "pub fn "@
        + obj_sym(o, "check_row"@) + "(obj: &"@ + o.name@
        + ", id: usize, row: c_int) -> COption<usize> {\n    match to_usize(row) {\n        Some(row) => obj.check_row(id, row).into(),\n        None => COption::absent(),\n    }\n}\n\n"@
        + "pub fn "@ + obj_sym(o, "index"@) + "(obj: &"@ + o.name@
        + ", id: COption<usize>, row: c_int) -> usize {\n    match to_usize(row) {\n        Some(row) => obj.index_at(id.into(), row),\n        None => 0,\n    }\n}\n\n"@
        + "pub fn "@ + obj_sym(o, "parent"@) + "(obj: &"@ + o.name@
        + ", id: usize) -> QModelIndex {\n    match obj.parent(id) {\n        Some(p) => QModelIndex { row: to_c_int(obj.row(p)), internal_id: p },\n        None => QModelIndex { row: -1, internal_id: 0 },\n    }\n}\n\n"@
        + "pub fn "@ + obj_sym(o, "row"@) + "(obj: &"@ + o.name@
        + ", id: usize) -> c_int {\n    to_c_int(obj.row(id))\n}\n\n"@
}

fn tree_ops_fn_text(o: &Object) -> (r: String)
    ensures
        r@ == tree_ops_text(*o),
{
    let mut s = String::new();
    s.append("pub fn ");
    let a = crate::surface::obj_symbol(o, "row_count");
    s.append(a.as_str());
    s.append("(obj: &");
    s.append(o.name.as_str());
    s.append(", id: COption<usize>) -> c_int {\n    to_c_int(obj.row_count(id.into()))\n}\n\n");
    s.append("pub fn ");
    let b = crate::surface::obj_symbol(o, "can_fetch_more");
    s.append(b.as_str());
    s.append("(obj: &");
    s.append(o.name.as_str());
    s.append(", id: COption<usize>) -> bool {\n    obj.can_fetch_more(id.into())\n}\n\n");
    s.append("pub fn ");
    let c = crate::surface::obj_symbol(o, "fetch_more");
    s.append(c.as_str());
    s.append("(obj: &mut ");
    s.append(o.name.as_str());
    s.append(", id: COption<usize>) {\n    obj.fetch_more(id.into())\n}\n\n");
    s.append("pub fn ");
    let d = crate::surface::obj_symbol(o, "sort");
    s.append(d.as_str());
    s.append("(obj: &mut ");
    s.append(o.name.as_str());
    s.append(", column: u8, order: SortOrder) {\n    obj.sort(column, order)\n}\n\n");
    s.append("pub fn ");
    let e = crate::surface::obj_symbol(o, "check_row");
    s.append(e.as_str());
    s.append("(obj: &");
    s.append(o.name.as_str());
    s.append(
        ", id: usize, row: c_int) -> COption<usize> {\n    match to_usize(row) {\n        Some(row) => obj.check_row(id, row).into(),\n        None => COption::absent(),\n    }\n}\n\n",
    );
    s.append("pub fn ");
    let f = crate::surface::obj_symbol(o, "index");
    s.append(f.as_str());
    s.append("(obj: &");
    s.append(o.name.as_str());
    s.append(
        ", id: COption<usize>, row: c_int) -> usize {\n    match to_usize(row) {\n        Some(row) => obj.index_at(id.into(), row),\n        None => 0,\n    }\n}\n\n",
    );
    s.append("pub fn ");
    let g = crate::surface::obj_symbol(o, "parent");
    s.append(g.as_str());
    s.append("(obj: &");
    s.append(o.name.as_str());
    s.append(
        ", id: usize) -> QModelIndex {\n    match obj.parent(id) {\n        Some(p) => QModelIndex { row: to_c_int(obj.row(p)), internal_id: p },\n        None => QModelIndex { row: -1, internal_id: 0 },\n    }\n}\n\n",
    );
    s.append("pub fn ");
    let h = crate::surface::obj_symbol(o, "row");
    s.append(h.as_str());
    s.append("(obj: &");
    s.append(o.name.as_str());
    s.append(", id: usize) -> c_int {\n    to_c_int(obj.row(id))\n}\n\n");
    proof {
        assert(s@ =~= tree_ops_text(*o));
    }
    s
}

/// The object-level entry points of the unit, by container kind.
pub open spec fn kind_ops_text(o: Object) -> Seq<char> {
    match o.kind {
        ObjectKind::Record => Seq::empty(),
        ObjectKind::FlatContainer => flat_ops_text(o),
        ObjectKind::TreeContainer => tree_ops_text(o),
    }
}

/// The whole implementation-side unit of one object.
pub open spec fn ffi_object_text(o: Object) -> Seq<char> {
    kind_ops_text(o) + props_text_upto(o, o.item_properties@.len() as int)
}

/// Emits the implementation-side unit of one object.
pub fn write_ffi_object(o: &Object) -> (r: String)
    ensures
        r@ == ffi_object_text(*o),
{
    let mut s = match o.kind {
        ObjectKind::Record => String::new(),
        ObjectKind::FlatContainer => flat_ops_fn_text(o),
        ObjectKind::TreeContainer => tree_ops_fn_text(o),
    };
    let p = props_fn_text(o);
    s.append(p.as_str());
    proof {
        assert(s@ =~= ffi_object_text(*o));
    }
    s
}

/// The symbols whose definitions property `i` contributes to the unit,
/// mirroring `prop_text`: the getter, the setter when writable, the
/// clear entry point when writable and optional.
pub open spec fn ffi_prop_syms(o: Object, i: int) -> Seq<Seq<char>> {
    let p = o.item_properties@[i];
    if p.writable {
        if p.optional {
            seq![getter_sym(o, i), setter_sym(o, i), clear_sym(o, i)]
        } else {
            seq![getter_sym(o, i), setter_sym(o, i)]
        }
    } else {
        seq![getter_sym(o, i)]
    }
}

/// The symbols contributed by the first `n` properties.
pub open spec fn ffi_prop_syms_upto(o: Object, n: int) -> Seq<Seq<char>>
    decreases n,
{
    if n <= 0 {
        Seq::empty()
    } else {
        ffi_prop_syms_upto(o, n - 1) + ffi_prop_syms(o, n - 1)
    }
}

/// The symbols whose definitions the unit contains, in order: the
/// object-level entry points of its kind, then each property's getter,
/// setter and clear entry point as the property declares them.
pub open spec fn ffi_impl_syms(o: Object) -> Seq<Seq<char>> {
    crate::surface::kind_syms(o) + ffi_prop_syms_upto(o, o.item_properties@.len() as int)
}

proof fn lemma_ffi_prop_syms_agree(o: Object, n: int)
    ensures
        ffi_prop_syms_upto(o, n) == crate::surface::prop_syms_upto(o, n),
    decreases n,
{
    if n > 0 {
        lemma_ffi_prop_syms_agree(o, n - 1);
        assert(ffi_prop_syms(o, n - 1) =~= crate::surface::prop_syms(o, n - 1));
        assert(ffi_prop_syms_upto(o, n) =~= crate::surface::prop_syms_upto(o, n));
    }
}

/// The implementation-side unit defines exactly the symbols of the shared
/// surface, in the same order.
pub proof fn lemma_ffi_implements_surface(o: Object)
    ensures
        ffi_impl_syms(o) == surface_syms(o),
{
    lemma_ffi_prop_syms_agree(o, o.item_properties@.len() as int);
    assert(ffi_impl_syms(o) =~= surface_syms(o));
}

} // verus!
