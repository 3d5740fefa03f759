//! The native-side emitter: the adapter source implementing the
//! UI toolkit's table/tree data-access contract for every object, plus the
//! forward declarations of the implementation surface. All symbol names
//! and signatures come from the shared descriptor in `surface`, so they
//! match the implementation-side unit by construction.

use vstd::prelude::*;
use vstd::string::*;
use crate::resolver::{spec_column_count, spec_has_duplicate};
use crate::schema::{Config, ItemProperty, Object, ObjectKind, Role, ValueType};
use crate::surface::{
    clear_sym, cpp_type, getter_sym, kind_syms, obj_sym, prop_syms, prop_syms_upto, role_name,
    setter_sym, spec_transfer_mode, surface_syms, transfer_mode, TransferMode,
};
use crate::text::{dec_digits, dec_string};

verus! {

/// The positional argument of a native-side accessor declaration.
pub open spec fn cpp_idx_decl(o: Object) -> Seq<char> {
    match o.kind {
        ObjectKind::Record => ""@,
        ObjectKind::FlatContainer => ", int"@,
        ObjectKind::TreeContainer => ", quintptr"@,
    }
}

fn cpp_idx_decl_str(o: &Object) -> (r: &'static str)
    ensures
        r@ == cpp_idx_decl(*o),
{
    match o.kind {
        ObjectKind::Record => "",
        ObjectKind::FlatContainer => ", int",
        ObjectKind::TreeContainer => ", quintptr",
    }
}

/// The callback type a variable-length value is delivered through.
pub open spec fn set_fn_name(vt: ValueType) -> Seq<char> {
    match vt {
        ValueType::Bytes => "qbytearray_set"@,
        _ => "qstring_set"@,
    }
}

fn set_fn_name_str(vt: ValueType) -> (r: &'static str)
    ensures
        r@ == set_fn_name(vt),
{
    match vt {
        ValueType::Bytes => "qbytearray_set",
        _ => "qstring_set",
    }
}

/// The value arguments of a native-side setter declaration: text and
/// byte blobs cross as pointer and length, fixed-size values by value.
pub open spec fn set_args(vt: ValueType) -> Seq<char> {
    match vt {
        ValueType::Text => "const ushort*, int"@,
        ValueType::Bytes => "const char*, int"@,
        _ => cpp_type(vt),
    }
}

fn set_args_str(vt: ValueType) -> (r: &'static str)
    ensures
        r@ == set_args(vt),
{
    match vt {
        ValueType::Text => "const ushort*, int",
        ValueType::Bytes => "const char*, int",
        _ => crate::surface::cpp_type_str(vt),
    }
}

/// Forward declaration of the getter of property `i`.
pub open spec fn getter_decl_text(o: Object, i: int) -> Seq<char> {
    let p = o.item_properties@[i];
    match spec_transfer_mode(p) {
        TransferMode::Direct => cpp_type(p.value_type) + " "@ + getter_sym(o, i) + "(const "@
            + o.name@ + "::Private*"@ + cpp_idx_decl(o) + ");\n"@,
        TransferMode::OptionalDirect => "option_"@ + cpp_type(p.value_type) + " "@ + getter_sym(
            o,
            i,
        ) + "(const "@ + o.name@ + "::Private*"@ + cpp_idx_decl(o) + ");\n"@,
        _ => "void "@ + getter_sym(o, i) + "(const "@ + o.name@ + "::Private*"@ + cpp_idx_decl(o)
            + ", "@ + cpp_type(p.value_type) + "*, "@ + set_fn_name(p.value_type) + ");\n"@,
    }
}

fn getter_decl_fn_text(o: &Object, i: usize) -> (r: String)
    requires
        (i as int) < o.item_properties@.len(),
    ensures
        r@ == getter_decl_text(*o, i as int),
{
    let p = &o.item_properties[i];
    let mut s = String::new();
    let sym = crate::surface::getter_symbol(o, i);
    match transfer_mode(p) {
        TransferMode::Direct => {
            s.append(crate::surface::cpp_type_str(p.value_type));
            s.append(" ");
            s.append(sym.as_str());
            s.append("(const ");
            s.append(o.name.as_str());
            s.append("::Private*");
            s.append(cpp_idx_decl_str(o));
            s.append(");\n");
        },
        TransferMode::OptionalDirect => {
            s.append("option_");
            s.append(crate::surface::cpp_type_str(p.value_type));
            s.append(" ");
            s.append(sym.as_str());
            s.append("(const ");
            s.append(o.name.as_str());
            s.append("::Private*");
            s.append(cpp_idx_decl_str(o));
            s.append(");\n");
        },
        _ => {
            s.append("void ");
            s.append(sym.as_str());
            s.append("(const ");
            s.append(o.name.as_str());
            s.append("::Private*");
            s.append(cpp_idx_decl_str(o));
            s.append(", ");
            s.append(crate::surface::cpp_type_str(p.value_type));
            s.append("*, ");
            s.append(set_fn_name_str(p.value_type));
            s.append(");\n");
        },
    }
    proof {
        assert(s@ =~= getter_decl_text(*o, i as int));
    }
    s
}

/// Forward declaration of the setter of property `i`.
pub open spec fn setter_decl_text(o: Object, i: int) -> Seq<char> {
    let p = o.item_properties@[i];
    "bool "@ + setter_sym(o, i) + "("@ + o.name@ + "::Private*"@ + cpp_idx_decl(o) + ", "@
        + set_args(p.value_type) + ");\n"@
}

fn setter_decl_fn_text(o: &Object, i: usize) -> (r: String)
    requires
        (i as int) < o.item_properties@.len(),
    ensures
        r@ == setter_decl_text(*o, i as int),
{
    let p = &o.item_properties[i];
    let mut s = String::new();
    s.append("bool ");
    let sym = crate::surface::setter_symbol(o, i);
    s.append(sym.as_str());
    s.append("(");
    s.append(o.name.as_str());
    s.append("::Private*");
    s.append(cpp_idx_decl_str(o));
    s.append(", ");
    s.append(set_args_str(p.value_type));
    s.append(");\n");
    proof {
        assert(s@ =~= setter_decl_text(*o, i as int));
    }
    s
}

/// Forward declaration of the clear-to-absent setter of property `i`.
pub open spec fn clear_decl_text(o: Object, i: int) -> Seq<char> {
    "bool "@ + clear_sym(o, i) + "("@ + o.name@ + "::Private*"@ + cpp_idx_decl(o) + ");\n"@
}

fn clear_decl_fn_text(o: &Object, i: usize) -> (r: String)
    requires
        (i as int) < o.item_properties@.len(),
    ensures
        r@ == clear_decl_text(*o, i as int),
{
    let mut s = String::new();
    s.append("bool ");
    let sym = crate::surface::clear_symbol(o, i);
    s.append(sym.as_str());
    s.append("(");
    s.append(o.name.as_str());
    s.append("::Private*");
    s.append(cpp_idx_decl_str(o));
    s.append(");\n");
    proof {
        assert(s@ =~= clear_decl_text(*o, i as int));
    }
    s
}

/// The declarations property `i` contributes, mirroring its symbols.
pub open spec fn prop_decls_text(o: Object, i: int) -> Seq<char> {
    let p = o.item_properties@[i];
    if p.writable {
        if p.optional {
            getter_decl_text(o, i) + setter_decl_text(o, i) + clear_decl_text(o, i)
        } else {
            getter_decl_text(o, i) + setter_decl_text(o, i)
        }
    } else {
        getter_decl_text(o, i)
    }
}

/// The declarations of the first `n` properties.
pub open spec fn prop_decls_upto(o: Object, n: int) -> Seq<char>
    decreases n,
{
    if n <= 0 {
        Seq::empty()
    } else {
        prop_decls_upto(o, n - 1) + prop_decls_text(o, n - 1)
    }
}

/// Declarations of the object-level entry points, by kind, in the order
/// of the shared surface.
pub open spec fn kind_decls_text(o: Object) -> Seq<char> {
    match o.kind {
        ObjectKind::Record => Seq::empty(),
        ObjectKind::FlatContainer => "int "@ + obj_sym(o, "row_count"@) + "(const "@ + o.name@
            + "::Private*);\n"@ + "bool "@ + obj_sym(o, "insert_rows"@) + "("@ + o.name@
            + "::Private*, int, int);\n"@ + "bool "@ + obj_sym(o, "remove_rows"@) + "("@ + o.name@
            + "::Private*, int, int);\n"@ + "bool "@ + obj_sym(o, "can_fetch_more"@) + "(const "@
            + o.name@ + "::Private*);\n"@ + "void "@ + obj_sym(o, "fetch_more"@) + "("@ + o.name@
            + "::Private*);\n"@ + "void "@ + obj_sym(o, "sort"@) + "("@ + o.name@
            + "::Private*, unsigned char, int);\n"@,
        ObjectKind::TreeContainer => "int "@ + obj_sym(o, "row_count"@) + "(const "@ + o.name@
            + "::Private*, option_quintptr);\n"@ + "bool "@ + obj_sym(o, "can_fetch_more"@)
            + "(const "@ + o.name@ + "::Private*, option_quintptr);\n"@ + "void "@ + obj_sym(
            o,
            "fetch_more"@,
        ) + "("@ + o.name@ + "::Private*, option_quintptr);\n"@ + "void "@ + obj_sym(o, "sort"@)
            + "("@ + o.name@ + "::Private*, unsigned char, int);\n"@ + "option_quintptr "@
            + obj_sym(o, "check_row"@) + "(const "@ + o.name@ + "::Private*, quintptr, int);\n"@
            + "quintptr "@ + obj_sym(o, "index"@) + "(const "@ + o.name@
            + "::Private*, option_quintptr, int);\n"@ + "qmodelindex_t "@ + obj_sym(o, "parent"@)
            + "(const "@ + o.name@ + "::Private*, quintptr);\n"@ + "int "@ + obj_sym(o, "row"@)
            + "(const "@ + o.name@ + "::Private*, quintptr);\n"@,
    }
}

fn kind_decls_fn_text(o: &Object) -> (r: String)
    ensures
        r@ == kind_decls_text(*o),
{
    let mut s = String::new();
    match o.kind {
        ObjectKind::Record => {},
        ObjectKind::FlatContainer => {
            s.append("int ");
            let a = crate::surface::obj_symbol(o, "row_count");
            s.append(a.as_str());
            s.append("(const ");
            s.append(o.name.as_str());
            s.append("::Private*);\n");
            s.append("bool ");
            let b = crate::surface::obj_symbol(o, "insert_rows");
            s.append(b.as_str());
            s.append("(");
            s.append(o.name.as_str());
            s.append("::Private*, int, int);\n");
            s.append("bool ");
            let c = crate::surface::obj_symbol(o, "remove_rows");
            s.append(c.as_str());
            s.append("(");
            s.append(o.name.as_str());
            s.append("::Private*, int, int);\n");
            s.append("bool ");
            let d = crate::surface::obj_symbol(o, "can_fetch_more");
            s.append(d.as_str());
            s.append("(const ");
            s.append(o.name.as_str());
            s.append("::Private*);\n");
            s.append("void ");
            let e = crate::surface::obj_symbol(o, "fetch_more");
            s.append(e.as_str());
            s.append("(");
            s.append(o.name.as_str());
            s.append("::Private*);\n");
            s.append("void ");
            let f = crate::surface::obj_symbol(o, "sort");
            s.append(f.as_str());
            s.append("(");
            s.append(o.name.as_str());
            s.append("::Private*, unsigned char, int);\n");
        },
        ObjectKind::TreeContainer => {
            s.append("int ");
            let a = crate::surface::obj_symbol(o, "row_count");
            s.append(a.as_str());
            s.append("(const ");
            s.append(o.name.as_str());
            s.append("::Private*, option_quintptr);\n");
            s.append("bool ");
            let b = crate::surface::obj_symbol(o, "can_fetch_more");
            s.append(b.as_str());
            s.append("(const ");
            s.append(o.name.as_str());
            s.append("::Private*, option_quintptr);\n");
            s.append("void ");
            let c = crate::surface::obj_symbol(o, "fetch_more");
            s.append(c.as_str());
            s.append("(");
            s.append(o.name.as_str());
            s.append("::Private*, option_quintptr);\n");
            s.append("void ");
            let d = crate::surface::obj_symbol(o, "sort");
            s.append(d.as_str());
            s.append("(");
            s.append(o.name.as_str());
            s.append("::Private*, unsigned char, int);\n");
            s.append("option_quintptr ");
            let e = crate::surface::obj_symbol(o, "check_row");
            s.append(e.as_str());
            s.append("(const ");
            s.append(o.name.as_str());
            s.append("::Private*, quintptr, int);\n");
            s.append("quintptr ");
            let f = crate::surface::obj_symbol(o, "index");
            s.append(f.as_str());
            s.append("(const ");
            s.append(o.name.as_str());
            s.append("::Private*, option_quintptr, int);\n");
            s.append("qmodelindex_t ");
            let g = crate::surface::obj_symbol(o, "parent");
            s.append(g.as_str());
            s.append("(const ");
            s.append(o.name.as_str());
            s.append("::Private*, quintptr);\n");
            s.append("int ");
            let h = crate::surface::obj_symbol(o, "row");
            s.append(h.as_str());
            s.append("(const ");
            s.append(o.name.as_str());
            s.append("::Private*, quintptr);\n");
        },
    }
    proof {
        assert(s@ =~= kind_decls_text(*o));
    }
    s
}

/// The whole native-side declaration block of one object: the entry
/// points of its kind, then each property's accessors.
pub open spec fn cpp_decls_text(o: Object) -> Seq<char> {
    kind_decls_text(o) + prop_decls_upto(o, o.item_properties@.len() as int)
}

/// Emits the declaration block of one object.
#[verifier::rlimit(100)]
pub fn write_object_decls(o: &Object) -> (r: String)
    ensures
        r@ == cpp_decls_text(*o),
{
    let mut s = kind_decls_fn_text(o);
    let ghost head = s@;
    let n = o.item_properties.len();
    let mut i: usize = 0;
    while i < n
        invariant
            i <= n,
            n == o.item_properties@.len(),
            head == kind_decls_text(*o),
            s@ == head + prop_decls_upto(*o, i as int),
        decreases n - i,
    {
        let g = getter_decl_fn_text(o, i);
        s.append(g.as_str());
        if o.item_properties[i].writable {
            let t = setter_decl_fn_text(o, i);
            s.append(t.as_str());
            if o.item_properties[i].optional {
                let c = clear_decl_fn_text(o, i);
                s.append(c.as_str());
            }
        }
        proof {
            assert(s@ =~= head + prop_decls_upto(*o, i + 1 as int));
        }
        i += 1;
    }
    proof {
        assert(s@ =~= cpp_decls_text(*o));
    }
    s
}

/// The symbols the declaration block declares, in order: the object-level
/// entry points of the kind, then per property its getter, setter and
/// clear entry point.
pub open spec fn cpp_decl_syms(o: Object) -> Seq<Seq<char>> {
    kind_syms(o) + cpp_prop_decl_syms_upto(o, o.item_properties@.len() as int)
}

/// The symbols the declarations of property `i` name.
pub open spec fn cpp_prop_decl_syms(o: Object, i: int) -> Seq<Seq<char>> {
    let p = o.item_properties@[i];
    if p.writable {
        if p.optional {
            seq![getter_sym(o, i), setter_sym(o, i), clear_sym(o, i)]
        } else {
            seq![getter_sym(o, i), setter_sym(o, i)]
        }
    } else {
        seq![getter_sym(o, i)]
    }
}

/// The symbols named by the declarations of the first `n` properties.
pub open spec fn cpp_prop_decl_syms_upto(o: Object, n: int) -> Seq<Seq<char>>
    decreases n,
{
    if n <= 0 {
        Seq::empty()
    } else {
        cpp_prop_decl_syms_upto(o, n - 1) + cpp_prop_decl_syms(o, n - 1)
    }
}

proof fn lemma_prop_decl_syms_agree(o: Object, n: int)
    ensures
        cpp_prop_decl_syms_upto(o, n) == prop_syms_upto(o, n),
    decreases n,
{
    if n <= 0 {
    } else {
        lemma_prop_decl_syms_agree(o, n - 1);
        assert(cpp_prop_decl_syms(o, n - 1) =~= prop_syms(o, n - 1));
        assert(cpp_prop_decl_syms_upto(o, n) =~= prop_syms_upto(o, n));
    }
}

/// The naming contract between the two artifacts: the native declaration
/// block declares exactly the symbols of the shared surface — the same
/// names, in the same order, that the implementation-side unit defines.
pub proof fn lemma_cpp_declares_surface(o: Object)
    ensures
        cpp_decl_syms(o) == surface_syms(o),
        cpp_decl_syms(o) == crate::ffi::ffi_impl_syms(o),
{
    lemma_prop_decl_syms_agree(o, o.item_properties@.len() as int);
    assert(cpp_decl_syms(o) =~= surface_syms(o));
    crate::ffi::lemma_ffi_implements_surface(o);
}

/// The adapter's sort member: a thin shim onto the surface.
pub open spec fn sort_text(o: Object) -> Seq<char> {
    "void "@ + o.name@ + "::sort(int column, Qt::SortOrder order)\n{\n    "@ + obj_sym(o, "sort"@)
        + "(m_d, column, static_cast<int>(order));\n}\n"@
}

fn sort_fn_text(o: &Object) -> (r: String)
    ensures
        r@ == sort_text(*o),
{
    let mut s = String::new();
    s.append("void ");
    s.append(o.name.as_str());
    s.append("::sort(int column, Qt::SortOrder order)\n{\n    ");
    let a = crate::surface::obj_symbol(o, "sort");
    s.append(a.as_str());
    s.append("(m_d, column, static_cast<int>(order));\n}\n");
    proof {
        assert(s@ =~= sort_text(*o));
    }
    s
}

/// columnCount, rowCount, index and parent of a flat container: a row's
/// identity is its position, so index checks bounds and parent is always
/// the root.
pub open spec fn flat_glue_text(o: Object) -> Seq<char> {
    "int "@ + o.name@ + "::columnCount(const QModelIndex &) const\n{\n    return "@ + dec_digits(
        spec_column_count(o),
    ) + ";\n}\n\nint "@ + o.name@
        + "::rowCount(const QModelIndex &parent) const\n{\n    if (parent.isValid()) {\n        return 0;\n    }\n    return "@
        + obj_sym(o, "row_count"@) + "(m_d);\n}\n\nQModelIndex "@ + o.name@
        + "::index(int row, int column, const QModelIndex &parent) const\n{\n    if (!parent.isValid() && row >= 0 && row < rowCount(parent) && column >= 0 && column < "@
        + dec_digits(spec_column_count(o))
        + ") {\n        return createIndex(row, column, (quintptr)row);\n    }\n    return QModelIndex();\n}\n\nQModelIndex "@
        + o.name@ + "::parent(const QModelIndex &) const\n{\n    return QModelIndex();\n}\n\nbool "@
        + o.name@ + "::insertRows(int row, int count, const QModelIndex &)\n{\n    return "@
        + obj_sym(o, "insert_rows"@) + "(m_d, row, count);\n}\n\nbool "@ + o.name@
        + "::removeRows(int row, int count, const QModelIndex &)\n{\n    return "@ + obj_sym(
        o,
        "remove_rows"@,
    ) + "(m_d, row, count);\n}\n\nbool "@ + o.name@
        + "::canFetchMore(const QModelIndex &parent) const\n{\n    return !parent.isValid() && "@
        + obj_sym(o, "can_fetch_more"@) + "(m_d);\n}\n\nvoid "@ + o.name@
        + "::fetchMore(const QModelIndex &parent)\n{\n    if (!parent.isValid()) {\n        "@
        + obj_sym(o, "fetch_more"@) + "(m_d);\n    }\n}\n"@
}

fn flat_glue_fn_text(o: &Object) -> (r: String)
    requires
        o.bounded(),
    ensures
        r@ == flat_glue_text(*o),
{
    let cc = dec_string(crate::resolver::column_count(o) as u64);
    let mut s = String::new();
    s.append("int ");
    s.append(o.name.as_str());
    s.append("::columnCount(const QModelIndex &) const\n{\n    return ");
    s.append(cc.as_str());
    s.append(";\n}\n\nint ");
    s.append(o.name.as_str());
    s.append(
        "::rowCount(const QModelIndex &parent) const\n{\n    if (parent.isValid()) {\n        return 0;\n    }\n    return ",
    );
    let a = crate::surface::obj_symbol(o, "row_count");
    s.append(a.as_str());
    s.append("(m_d);\n}\n\nQModelIndex ");
    s.append(o.name.as_str());
    s.append(
        "::index(int row, int column, const QModelIndex &parent) const\n{\n    if (!parent.isValid() && row >= 0 && row < rowCount(parent) && column >= 0 && column < ",
    );
    s.append(cc.as_str());
    s.append(
        ") {\n        return createIndex(row, column, (quintptr)row);\n    }\n    return QModelIndex();\n}\n\nQModelIndex ",
    );
    s.append(o.name.as_str());
    s.append("::parent(const QModelIndex &) const\n{\n    return QModelIndex();\n}\n\nbool ");
    s.append(o.name.as_str());
    s.append("::insertRows(int row, int count, const QModelIndex &)\n{\n    return ");
    let e = crate::surface::obj_symbol(o, "insert_rows");
    s.append(e.as_str());
    s.append("(m_d, row, count);\n}\n\nbool ");
    s.append(o.name.as_str());
    s.append("::removeRows(int row, int count, const QModelIndex &)\n{\n    return ");
    let f = crate::surface::obj_symbol(o, "remove_rows");
    s.append(f.as_str());
    s.append("(m_d, row, count);\n}\n\nbool ");
    s.append(o.name.as_str());
    s.append("::canFetchMore(const QModelIndex &parent) const\n{\n    return !parent.isValid() && ");
    let g = crate::surface::obj_symbol(o, "can_fetch_more");
    s.append(g.as_str());
    s.append("(m_d);\n}\n\nvoid ");
    s.append(o.name.as_str());
    s.append("::fetchMore(const QModelIndex &parent)\n{\n    if (!parent.isValid()) {\n        ");
    let h = crate::surface::obj_symbol(o, "fetch_more");
    s.append(h.as_str());
    s.append("(m_d);\n    }\n}\n");
    proof {
        assert(s@ =~= flat_glue_text(*o));
    }
    s
}

/// columnCount, rowCount, index and parent of a tree container: the
/// stable internal id is carried in the index, a negative or out-of-range
/// row yields the invalid index, and a parent with a negative row marks
/// the root.
pub open spec fn tree_glue_text(o: Object) -> Seq<char> {
    "int "@ + o.name@ + "::columnCount(const QModelIndex &) const\n{\n    return "@ + dec_digits(
        spec_column_count(o),
    ) + ";\n}\n\nint "@ + o.name@
        + "::rowCount(const QModelIndex &parent) const\n{\n    if (parent.isValid() && parent.column() != 0) {\n        return 0;\n    }\n    return "@
        + obj_sym(o, "row_count"@) + "(m_d, option_index(parent));\n}\n\nQModelIndex "@ + o.name@
        + "::index(int row, int column, const QModelIndex &parent) const\n{\n    if (row < 0 || column < 0 || column >= "@
        + dec_digits(spec_column_count(o))
        + ") {\n        return QModelIndex();\n    }\n    if (row >= rowCount(parent)) {\n        return QModelIndex();\n    }\n    const quintptr id = "@
        + obj_sym(o, "index"@)
        + "(m_d, option_index(parent), row);\n    return createIndex(row, column, id);\n}\n\nQModelIndex "@
        + o.name@
        + "::parent(const QModelIndex &index) const\n{\n    if (!index.isValid()) {\n        return QModelIndex();\n    }\n    const qmodelindex_t parent = "@
        + obj_sym(o, "parent"@)
        + "(m_d, index.internalId());\n    if (parent.row < 0) {\n        return QModelIndex();\n    }\n    return createIndex(parent.row, 0, parent.id);\n}\n\nbool "@
        + o.name@ + "::canFetchMore(const QModelIndex &parent) const\n{\n    return "@ + obj_sym(
        o,
        "can_fetch_more"@,
    ) + "(m_d, option_index(parent));\n}\n\nvoid "@ + o.name@
        + "::fetchMore(const QModelIndex &parent)\n{\n    "@ + obj_sym(o, "fetch_more"@)
        + "(m_d, option_index(parent));\n}\n"@
}

fn tree_glue_fn_text(o: &Object) -> (r: String)
    requires
        o.bounded(),
    ensures
        r@ == tree_glue_text(*o),
{
    let cc = dec_string(crate::resolver::column_count(o) as u64);
    let mut s = String::new();
    s.append("int ");
    s.append(o.name.as_str());
    s.append("::columnCount(const QModelIndex &) const\n{\n    return ");
    s.append(cc.as_str());
    s.append(";\n}\n\nint ");
    s.append(o.name.as_str());
    s.append(
        "::rowCount(const QModelIndex &parent) const\n{\n    if (parent.isValid() && parent.column() != 0) {\n        return 0;\n    }\n    return ",
    );
    let a = crate::surface::obj_symbol(o, "row_count");
    s.append(a.as_str());
    s.append("(m_d, option_index(parent));\n}\n\nQModelIndex ");
    s.append(o.name.as_str());
    s.append(
        "::index(int row, int column, const QModelIndex &parent) const\n{\n    if (row < 0 || column < 0 || column >= ",
    );
    s.append(cc.as_str());
    s.append(
        ") {\n        return QModelIndex();\n    }\n    if (row >= rowCount(parent)) {\n        return QModelIndex();\n    }\n    const quintptr id = ",
    );
    let b = crate::surface::obj_symbol(o, "index");
    s.append(b.as_str());
    s.append(
        "(m_d, option_index(parent), row);\n    return createIndex(row, column, id);\n}\n\nQModelIndex ",
    );
    s.append(o.name.as_str());
    s.append(
        "::parent(const QModelIndex &index) const\n{\n    if (!index.isValid()) {\n        return QModelIndex();\n    }\n    const qmodelindex_t parent = ",
    );
    let c = crate::surface::obj_symbol(o, "parent");
    s.append(c.as_str());
    s.append(
        "(m_d, index.internalId());\n    if (parent.row < 0) {\n        return QModelIndex();\n    }\n    return createIndex(parent.row, 0, parent.id);\n}\n\nbool ",
    );
    s.append(o.name.as_str());
    s.append("::canFetchMore(const QModelIndex &parent) const\n{\n    return ");
    let d2 = crate::surface::obj_symbol(o, "can_fetch_more");
    s.append(d2.as_str());
    s.append("(m_d, option_index(parent));\n}\n\nvoid ");
    s.append(o.name.as_str());
    s.append("::fetchMore(const QModelIndex &parent)\n{\n    ");
    let e2 = crate::surface::obj_symbol(o, "fetch_more");
    s.append(e2.as_str());
    s.append("(m_d, option_index(parent));\n}\n");
    proof {
        assert(s@ =~= tree_glue_text(*o));
    }
    s
}

/// The index expression a dispatch case hands to the raw accessor.
pub open spec fn access_arg(o: Object) -> Seq<char> {
    match o.kind {
        ObjectKind::Record => ""@,
        ObjectKind::FlatContainer => "index.row()"@,
        ObjectKind::TreeContainer => "index"@,
    }
}

fn access_arg_str(o: &Object) -> (r: &'static str)
    ensures
        r@ == access_arg(*o),
{
    match o.kind {
        ObjectKind::Record => "",
        ObjectKind::FlatContainer => "index.row()",
        ObjectKind::TreeContainer => "index",
    }
}

/// The spelling of the default role of the property at offset `i`, used
/// identically by the read dispatch and the write dispatch.
pub open spec fn user_role_label(i: int) -> Seq<char> {
    "Qt::UserRole + "@ + dec_digits(i)
}

/// One named-role case label of the read dispatch.
pub open spec fn label_text(r: Role) -> Seq<char> {
    "        case Qt::"@ + role_name(r) + ":\n"@
}

/// The first `k` named-role case labels of property `i` in column `c`.
pub open spec fn labels_text(p: ItemProperty, c: int, k: int) -> Seq<char>
    decreases k,
{
    if k <= 0 {
        Seq::empty()
    } else {
        labels_text(p, c, k - 1) + label_text(p.labels_at(c)[k - 1])
    }
}

/// The default-role case label of property `i`.
pub open spec fn default_label_text(i: int) -> Seq<char> {
    "        case "@ + user_role_label(i) + ":\n"@
}

/// The return statement of property `i`'s read case. A fixed-size
/// optional value is returned raw — its accessor already carries the
/// toolkit's absence. A variable-length optional value is normalized
/// through cleanNullQVariant so the surface's absence never leaks into
/// the toolkit's. A required value is wrapped as a toolkit value.
pub open spec fn case_body_text(o: Object, i: int) -> Seq<char> {
    let p = o.item_properties@[i];
    if p.optional && !p.spec_is_complex() {
        "            return "@ + p.name@ + "("@ + access_arg(o) + ");\n"@
    } else if p.optional {
        "            return cleanNullQVariant(QVariant::fromValue("@ + p.name@ + "("@ + access_arg(
            o,
        ) + ")));\n"@
    } else {
        "            return QVariant::fromValue("@ + p.name@ + "("@ + access_arg(o) + "));\n"@
    }
}

/// Property `i`'s contribution to column `c` of the read dispatch: its
/// named-role labels, its default-role label and its return statement —
/// or nothing where the property is not visible in `c`.
pub open spec fn prop_case_text(o: Object, c: int, i: int) -> Seq<char> {
    let p = o.item_properties@[i];
    if p.visible_in(c) {
        labels_text(p, c, p.labels_at(c).len() as int) + default_label_text(i) + case_body_text(
            o,
            i,
        )
    } else {
        Seq::empty()
    }
}

/// The first `n` properties' contributions to column `c`.
pub open spec fn cases_text(o: Object, c: int, n: int) -> Seq<char>
    decreases n,
{
    if n <= 0 {
        Seq::empty()
    } else {
        cases_text(o, c, n - 1) + prop_case_text(o, c, n - 1)
    }
}

/// The outer case of column `c`: an inner switch on the role.
pub open spec fn column_case_text(o: Object, c: int) -> Seq<char> {
    "    case "@ + dec_digits(c) + ":\n        switch (role) {\n"@ + cases_text(
        o,
        c,
        o.item_properties@.len() as int,
    ) + "        }\n        break;\n"@
}

/// The outer cases of the first `n` columns.
pub open spec fn columns_text(o: Object, n: int) -> Seq<char>
    decreases n,
{
    if n <= 0 {
        Seq::empty()
    } else {
        columns_text(o, n - 1) + column_case_text(o, n - 1)
    }
}

/// The whole read dispatch: an outer switch on the column, an inner
/// switch on the role, an explicit no-value result otherwise.
pub open spec fn data_fn_text(o: Object) -> Seq<char> {
    "QVariant "@ + o.name@
        + "::data(const QModelIndex &index, int role) const\n{\n    Q_ASSERT(rowCount(index.parent()) > index.row());\n    switch (index.column()) {\n"@
        + columns_text(o, spec_column_count(o)) + "    }\n    return QVariant();\n}\n"@
}

#[verifier::spinoff_prover]
#[verifier::rlimit(100)]
fn prop_case_fn_text(o: &Object, c: usize, i: usize) -> (r: String)
    requires
        (i as int) < o.item_properties@.len(),
        i <= 0x0FFF_FFFF,
    ensures
        r@ == prop_case_text(*o, c as int, i as int),
{
    let p = &o.item_properties[i];
    let mut s = String::new();
    if crate::resolver::is_visible_in(p, c) {
        if c < p.roles.len() {
            let nk = p.roles[c].len();
            let mut k: usize = 0;
            while k < nk
                invariant
                    k <= nk,
                    (i as int) < o.item_properties@.len(),
                    (c as int) < o.item_properties@[i as int].roles@.len(),
                    nk == o.item_properties@[i as int].labels_at(c as int).len(),
                    p == &o.item_properties@[i as int],
                    s@ == labels_text(o.item_properties@[i as int], c as int, k as int),
                decreases nk - k,
            {
                s.append("        case Qt::");
                s.append(crate::surface::role_name_str(p.roles[c][k]));
                s.append(":\n");
                proof {
                    assert(s@ =~= labels_text(
                        o.item_properties@[i as int],
                        c as int,
                        k + 1 as int,
                    ));
                }
                k += 1;
            }
        } else {
            proof {
                assert(o.item_properties@[i as int].labels_at(c as int).len() == 0);
            }
        }
        s.append("        case ");
        s.append("Qt::UserRole + ");
        let d = dec_string(i as u64);
        s.append(d.as_str());
        s.append(":\n");
        if p.optional && !p.is_complex() {
            s.append("            return ");
            s.append(p.name.as_str());
            s.append("(");
            s.append(access_arg_str(o));
            s.append(");\n");
        } else if p.optional {
            s.append("            return cleanNullQVariant(QVariant::fromValue(");
            s.append(p.name.as_str());
            s.append("(");
            s.append(access_arg_str(o));
            s.append(")));\n");
        } else {
            s.append("            return QVariant::fromValue(");
            s.append(p.name.as_str());
            s.append("(");
            s.append(access_arg_str(o));
            s.append("));\n");
        }
        proof {
            assert(s@ =~= prop_case_text(*o, c as int, i as int));
        }
    } else {
        proof {
            assert(s@ =~= prop_case_text(*o, c as int, i as int));
        }
    }
    s
}

fn column_case_fn_text(o: &Object, c: usize) -> (r: String)
    requires
        o.bounded(),
    ensures
        r@ == column_case_text(*o, c as int),
{
    let mut s = String::new();
    s.append("    case ");
    let d = dec_string(c as u64);
    s.append(d.as_str());
    s.append(":\n        switch (role) {\n");
    let n = o.item_properties.len();
    let mut i: usize = 0;
    while i < n
        invariant
            i <= n,
            n == o.item_properties@.len(),
            o.bounded(),
            s@ == "    case "@ + dec_digits(c as int) + ":\n        switch (role) {\n"@
                + cases_text(*o, c as int, i as int),
        decreases n - i,
    {
        let t = prop_case_fn_text(o, c, i);
        s.append(t.as_str());
        proof {
            assert(s@ =~= "    case "@ + dec_digits(c as int) + ":\n        switch (role) {\n"@
                + cases_text(*o, c as int, i + 1 as int));
        }
        i += 1;
    }
    s.append("        }\n        break;\n");
    proof {
        assert(s@ =~= column_case_text(*o, c as int));
    }
    s
}

fn data_fn_fn_text(o: &Object) -> (r: String)
    requires
        o.bounded(),
    ensures
        r@ == data_fn_text(*o),
{
    let mut s = String::new();
    s.append("QVariant ");
    s.append(o.name.as_str());
    s.append(
        "::data(const QModelIndex &index, int role) const\n{\n    Q_ASSERT(rowCount(index.parent()) > index.row());\n    switch (index.column()) {\n",
    );
    let ghost head = s@;
    let cc = crate::resolver::column_count(o);
    let mut c: usize = 0;
    while c < cc
        invariant
            c <= cc,
            o.bounded(),
            cc as int == spec_column_count(*o),
            s@ == head + columns_text(*o, c as int),
        decreases cc - c,
    {
        let t = column_case_fn_text(o, c);
        s.append(t.as_str());
        proof {
            assert(s@ =~= head + columns_text(*o, c + 1 as int));
        }
        c += 1;
    }
    s.append("    }\n    return QVariant();\n}\n");
    proof {
        assert(s@ =~= data_fn_text(*o));
    }
    s
}

/// Whether any property of `o` is writable; only then is a write
/// dispatch emitted at all.
pub open spec fn model_is_writable(o: Object) -> bool {
    exists|i: int|
        0 <= i < o.item_properties@.len() && (#[trigger] o.item_properties@[i]).writable
}

fn is_model_writable(o: &Object) -> (r: bool)
    ensures
        r == model_is_writable(*o),
{
    let n = o.item_properties.len();
    let mut i: usize = 0;
    while i < n
        invariant
            i <= n,
            n == o.item_properties@.len(),
            forall|j: int| 0 <= j < i ==> !(#[trigger] o.item_properties@[j]).writable,
        decreases n - i,
    {
        if o.item_properties[i].writable {
            return true;
        }
        i += 1;
    }
    false
}

/// Whether column `c` holds a writable, visible property.
pub open spec fn is_column_write(o: Object, c: int) -> bool {
    exists|i: int|
        0 <= i < o.item_properties@.len() && (#[trigger] o.item_properties@[i]).writable
            && o.item_properties@[i].visible_in(c)
}

fn is_column_write_fn(o: &Object, c: usize) -> (r: bool)
    ensures
        r == is_column_write(*o, c as int),
{
    let n = o.item_properties.len();
    let mut i: usize = 0;
    while i < n
        invariant
            i <= n,
            n == o.item_properties@.len(),
            forall|j: int|
                0 <= j < i ==> !((#[trigger] o.item_properties@[j]).writable
                    && o.item_properties@[j].visible_in(c as int)),
        decreases n - i,
    {
        if o.item_properties[i].writable && crate::resolver::is_visible_in(
            &o.item_properties[i],
            c,
        ) {
            return true;
        }
        i += 1;
    }
    false
}

/// One named-role disjunct of a write dispatch condition.
pub open spec fn cond_text(r: Role) -> Seq<char> {
    "role == Qt::"@ + role_name(r) + " || "@
}

/// The first `k` named-role disjuncts of property `i` in column `c`.
pub open spec fn conds_text(p: ItemProperty, c: int, k: int) -> Seq<char>
    decreases k,
{
    if k <= 0 {
        Seq::empty()
    } else {
        conds_text(p, c, k - 1) + cond_text(p.labels_at(c)[k - 1])
    }
}

/// The closing disjunct: the default role of the property at offset `i`,
/// spelled exactly as in the read dispatch.
pub open spec fn default_cond_text(i: int) -> Seq<char> {
    "role == "@ + user_role_label(i) + ") {\n"@
}

/// The toolkit-value guard of an optional value: an invalid or null
/// value may always be written to clear the property.
pub open spec fn pre_text(p: ItemProperty) -> Seq<char> {
    if p.optional {
        "!value.isValid() || value.isNull() || "@
    } else {
        Seq::empty()
    }
}

/// The body of property `i`'s write case: a fixed-size optional value
/// passes raw; any other value is checked against the declared type
/// first, and a failed check falls through to the rejected-write result.
pub open spec fn set_case_body_text(o: Object, i: int) -> Seq<char> {
    let p = o.item_properties@[i];
    if p.optional && !p.spec_is_complex() {
        "            return set_"@ + p.name@ + "("@ + access_arg(o) + ", value);\n"@
    } else {
        "            if ("@ + pre_text(p) + "value.canConvert(qMetaTypeId<"@ + cpp_type(
            p.value_type,
        ) + ">())) {\n                return set_"@ + p.name@ + "("@ + access_arg(o)
            + ", value.value<"@ + cpp_type(p.value_type) + ">());\n            }\n"@
    }
}

/// Property `i`'s contribution to column `c` of the write dispatch.
pub open spec fn set_prop_text(o: Object, c: int, i: int) -> Seq<char> {
    let p = o.item_properties@[i];
    if p.writable && p.visible_in(c) {
        "        if ("@ + conds_text(p, c, p.labels_at(c).len() as int) + default_cond_text(i)
            + set_case_body_text(o, i) + "        }\n"@
    } else {
        Seq::empty()
    }
}

/// The first `n` properties' contributions to column `c` of the write
/// dispatch.
pub open spec fn set_props_text(o: Object, c: int, n: int) -> Seq<char>
    decreases n,
{
    if n <= 0 {
        Seq::empty()
    } else {
        set_props_text(o, c, n - 1) + set_prop_text(o, c, n - 1)
    }
}

/// Column `c` of the write dispatch; a column with no writable, visible
/// property contributes nothing.
pub open spec fn set_column_text(o: Object, c: int) -> Seq<char> {
    if is_column_write(o, c) {
        "    if (index.column() == "@ + dec_digits(c) + ") {\n"@ + set_props_text(
            o,
            c,
            o.item_properties@.len() as int,
        ) + "    }\n"@
    } else {
        Seq::empty()
    }
}

/// The first `n` columns of the write dispatch.
pub open spec fn set_columns_text(o: Object, n: int) -> Seq<char>
    decreases n,
{
    if n <= 0 {
        Seq::empty()
    } else {
        set_columns_text(o, n - 1) + set_column_text(o, n - 1)
    }
}

/// The whole write dispatch: emitted only for an object with a writable
/// property, mirroring the read dispatch's column and role matching but
/// filtered to writable properties, with the declared-type check before
/// any conversion; every unmatched path reports a rejected write.
pub open spec fn set_data_fn_text(o: Object) -> Seq<char> {
    if model_is_writable(o) {
        "bool "@ + o.name@
            + "::setData(const QModelIndex &index, const QVariant &value, int role)\n{\n"@
            + set_columns_text(o, spec_column_count(o)) + "    return false;\n}\n"@
    } else {
        Seq::empty()
    }
}

#[verifier::spinoff_prover]
#[verifier::rlimit(100)]
fn set_prop_fn_text(o: &Object, c: usize, i: usize) -> (r: String)
    requires
        (i as int) < o.item_properties@.len(),
        i <= 0x0FFF_FFFF,
    ensures
        r@ == set_prop_text(*o, c as int, i as int),
{
    let p = &o.item_properties[i];
    let mut s = String::new();
    if p.writable && crate::resolver::is_visible_in(p, c) {
        s.append("        if (");
        if c < p.roles.len() {
            let nk = p.roles[c].len();
            let mut k: usize = 0;
            while k < nk
                invariant
                    k <= nk,
                    (i as int) < o.item_properties@.len(),
                    (c as int) < o.item_properties@[i as int].roles@.len(),
                    nk == o.item_properties@[i as int].labels_at(c as int).len(),
                    p == &o.item_properties@[i as int],
                    s@ == "        if ("@ + conds_text(
                        o.item_properties@[i as int],
                        c as int,
                        k as int,
                    ),
                decreases nk - k,
            {
                s.append("role == Qt::");
                s.append(crate::surface::role_name_str(p.roles[c][k]));
                s.append(" || ");
                proof {
                    assert(s@ =~= "        if ("@ + conds_text(
                        o.item_properties@[i as int],
                        c as int,
                        k + 1 as int,
                    ));
                }
                k += 1;
            }
        } else {
            proof {
                assert(o.item_properties@[i as int].labels_at(c as int).len() == 0);
            }
        }
        s.append("role == ");
        s.append("Qt::UserRole + ");
        let d = dec_string(i as u64);
        s.append(d.as_str());
        s.append(") {\n");
        if p.optional && !p.is_complex() {
            s.append("            return set_");
            s.append(p.name.as_str());
            s.append("(");
            s.append(access_arg_str(o));
            s.append(", value);\n");
        } else {
            s.append("            if (");
            if p.optional {
                s.append("!value.isValid() || value.isNull() || ");
            }
            s.append("value.canConvert(qMetaTypeId<");
            s.append(crate::surface::cpp_type_str(p.value_type));
            s.append(">())) {\n                return set_");
            s.append(p.name.as_str());
            s.append("(");
            s.append(access_arg_str(o));
            s.append(", value.value<");
            s.append(crate::surface::cpp_type_str(p.value_type));
            s.append(">());\n            }\n");
        }
        s.append("        }\n");
        proof {
            assert(s@ =~= set_prop_text(*o, c as int, i as int));
        }
    } else {
        proof {
            assert(s@ =~= set_prop_text(*o, c as int, i as int));
        }
    }
    s
}

fn set_column_fn_text(o: &Object, c: usize) -> (r: String)
    requires
        o.bounded(),
    ensures
        r@ == set_column_text(*o, c as int),
{
    let mut s = String::new();
    if is_column_write_fn(o, c) {
        s.append("    if (index.column() == ");
        let d = dec_string(c as u64);
        s.append(d.as_str());
        s.append(") {\n");
        let ghost head = s@;
        let n = o.item_properties.len();
        let mut i: usize = 0;
        while i < n
            invariant
                i <= n,
                n == o.item_properties@.len(),
                o.bounded(),
                s@ == head + set_props_text(*o, c as int, i as int),
            decreases n - i,
        {
            let t = set_prop_fn_text(o, c, i);
            s.append(t.as_str());
            proof {
                assert(s@ =~= head + set_props_text(*o, c as int, i + 1 as int));
            }
            i += 1;
        }
        s.append("    }\n");
    }
    proof {
        assert(s@ =~= set_column_text(*o, c as int));
    }
    s
}

fn set_data_fn_fn_text(o: &Object) -> (r: String)
    requires
        o.bounded(),
    ensures
        r@ == set_data_fn_text(*o),
{
    let mut s = String::new();
    if is_model_writable(o) {
        s.append("bool ");
        s.append(o.name.as_str());
        s.append("::setData(const QModelIndex &index, const QVariant &value, int role)\n{\n");
        let ghost head = s@;
        let cc = crate::resolver::column_count(o);
        let mut c: usize = 0;
        while c < cc
            invariant
                c <= cc,
                o.bounded(),
                cc as int == spec_column_count(*o),
                s@ == head + set_columns_text(*o, c as int),
            decreases cc - c,
        {
            let t = set_column_fn_text(o, c);
            s.append(t.as_str());
            proof {
                assert(s@ =~= head + set_columns_text(*o, c + 1 as int));
            }
            c += 1;
        }
        s.append("    return false;\n}\n");
    }
    proof {
        assert(s@ =~= set_data_fn_text(*o));
    }
    s
}

/// The header accessors: keyed by section and role, horizontal axis
/// only, a read defaulting to the 1-based stringified section number
/// under the default display role and to no value otherwise.
pub open spec fn header_text(o: Object) -> Seq<char> {
    "QVariant "@ + o.name@
        + "::headerData(int section, Qt::Orientation orientation, int role) const\n{\n    if (orientation != Qt::Horizontal) {\n        return QVariant();\n    }\n    return m_headerData.value(qMakePair(section, static_cast<Qt::ItemDataRole>(role)), role == Qt::DisplayRole ? QString::number(section + 1) : QVariant());\n}\n\nbool "@
        + o.name@
        + "::setHeaderData(int section, Qt::Orientation orientation, const QVariant &value, int role)\n{\n    if (orientation != Qt::Horizontal) {\n        return false;\n    }\n    m_headerData.insert(qMakePair(section, static_cast<Qt::ItemDataRole>(role)), value);\n    return true;\n}\n"@
}

fn header_fn_text(o: &Object) -> (r: String)
    ensures
        r@ == header_text(*o),
{
    let mut s = String::new();
    s.append("QVariant ");
    s.append(o.name.as_str());
    s.append(
        "::headerData(int section, Qt::Orientation orientation, int role) const\n{\n    if (orientation != Qt::Horizontal) {\n        return QVariant();\n    }\n    return m_headerData.value(qMakePair(section, static_cast<Qt::ItemDataRole>(role)), role == Qt::DisplayRole ? QString::number(section + 1) : QVariant());\n}\n\nbool ",
    );
    s.append(o.name.as_str());
    s.append(
        "::setHeaderData(int section, Qt::Orientation orientation, const QVariant &value, int role)\n{\n    if (orientation != Qt::Horizontal) {\n        return false;\n    }\n    m_headerData.insert(qMakePair(section, static_cast<Qt::ItemDataRole>(role)), value);\n    return true;\n}\n",
    );
    proof {
        assert(s@ =~= header_text(*o));
    }
    s
}

/// One role-name entry: the default role of property `i`, named after
/// the property.
pub open spec fn role_name_entry_text(o: Object, i: int) -> Seq<char> {
    "    names.insert("@ + user_role_label(i) + ", \""@ + o.item_properties@[i].name@ + "\");\n"@
}

/// The role-name entries of the first `n` properties.
pub open spec fn role_name_entries_text(o: Object, n: int) -> Seq<char>
    decreases n,
{
    if n <= 0 {
        Seq::empty()
    } else {
        role_name_entries_text(o, n - 1) + role_name_entry_text(o, n - 1)
    }
}

/// The role-enumeration support function: every property's default role,
/// in property order, under the property's name.
pub open spec fn role_names_fn_text(o: Object) -> Seq<char> {
    "QHash<int, QByteArray> "@ + o.name@
        + "::roleNames() const\n{\n    QHash<int, QByteArray> names = QAbstractItemModel::roleNames();\n"@
        + role_name_entries_text(o, o.item_properties@.len() as int) + "    return names;\n}\n"@
}

fn role_names_fn_fn_text(o: &Object) -> (r: String)
    requires
        o.bounded(),
    ensures
        r@ == role_names_fn_text(*o),
{
    let mut s = String::new();
    s.append("QHash<int, QByteArray> ");
    s.append(o.name.as_str());
    s.append(
        "::roleNames() const\n{\n    QHash<int, QByteArray> names = QAbstractItemModel::roleNames();\n",
    );
    let ghost head = s@;
    let n = o.item_properties.len();
    let mut i: usize = 0;
    while i < n
        invariant
            i <= n,
            n == o.item_properties@.len(),
            o.bounded(),
            s@ == head + role_name_entries_text(*o, i as int),
        decreases n - i,
    {
        s.append("    names.insert(");
        s.append("Qt::UserRole + ");
        let d = dec_string(i as u64);
        s.append(d.as_str());
        s.append(", \"");
        s.append(o.item_properties[i].name.as_str());
        s.append("\");\n");
        proof {
            assert(s@ =~= head + role_name_entries_text(*o, i + 1 as int));
        }
        i += 1;
    }
    s.append("    return names;\n}\n");
    proof {
        assert(s@ =~= role_names_fn_text(*o));
    }
    s
}

/// The flags contribution of column `c`: editable exactly where a
/// writable property answers.
pub open spec fn flags_col_text(o: Object, c: int) -> Seq<char> {
    if is_column_write(o, c) {
        "    if (i.column() == "@ + dec_digits(c)
            + ") {\n        flags |= Qt::ItemIsEditable;\n    }\n"@
    } else {
        Seq::empty()
    }
}

/// The flags contributions of the first `n` columns.
pub open spec fn flags_cols_text(o: Object, n: int) -> Seq<char>
    decreases n,
{
    if n <= 0 {
        Seq::empty()
    } else {
        flags_cols_text(o, n - 1) + flags_col_text(o, n - 1)
    }
}

/// The flags support function: the toolkit's base flags, plus editable
/// on every column that holds a writable property.
pub open spec fn flags_fn_text(o: Object) -> Seq<char> {
    "Qt::ItemFlags "@ + o.name@
        + "::flags(const QModelIndex &i) const\n{\n    auto flags = QAbstractItemModel::flags(i);\n"@
        + flags_cols_text(o, spec_column_count(o)) + "    return flags;\n}\n"@
}

fn flags_fn_fn_text(o: &Object) -> (r: String)
    requires
        o.bounded(),
    ensures
        r@ == flags_fn_text(*o),
{
    let mut s = String::new();
    s.append("Qt::ItemFlags ");
    s.append(o.name.as_str());
    s.append("::flags(const QModelIndex &i) const\n{\n    auto flags = QAbstractItemModel::flags(i);\n");
    let ghost head = s@;
    let cc = crate::resolver::column_count(o);
    let mut c: usize = 0;
    while c < cc
        invariant
            c <= cc,
            o.bounded(),
            cc as int == spec_column_count(*o),
            s@ == head + flags_cols_text(*o, c as int),
        decreases cc - c,
    {
        if is_column_write_fn(o, c) {
            s.append("    if (i.column() == ");
            let d = dec_string(c as u64);
            s.append(d.as_str());
            s.append(") {\n        flags |= Qt::ItemIsEditable;\n    }\n");
        }
        proof {
            assert(s@ =~= head + flags_cols_text(*o, c + 1 as int));
        }
        c += 1;
    }
    s.append("    return flags;\n}\n");
    proof {
        assert(s@ =~= flags_fn_text(*o));
    }
    s
}

/// The whole data-access surface of one container object.
pub open spec fn cpp_model_text(o: Object) -> Seq<char> {
    sort_text(o) + (match o.kind {
        ObjectKind::TreeContainer => tree_glue_text(o),
        _ => flat_glue_text(o),
    }) + flags_fn_text(o) + data_fn_text(o) + role_names_fn_text(o) + header_text(o)
        + set_data_fn_text(o)
}

/// Emits the data-access surface of one container object: the sort shim,
/// the index-translation glue of its kind, the read dispatch, the header
/// accessors, and — when a property is writable — the write dispatch.
pub fn write_cpp_model(o: &Object) -> (r: String)
    requires
        o.bounded(),
        o.spec_is_container(),
    ensures
        r@ == cpp_model_text(*o),
{
    let mut s = sort_fn_text(o);
    let glue = match o.kind {
        ObjectKind::TreeContainer => tree_glue_fn_text(o),
        _ => flat_glue_fn_text(o),
    };
    s.append(glue.as_str());
    let f = flags_fn_fn_text(o);
    s.append(f.as_str());
    let d = data_fn_fn_text(o);
    s.append(d.as_str());
    let rn = role_names_fn_fn_text(o);
    s.append(rn.as_str());
    let h = header_fn_text(o);
    s.append(h.as_str());
    let w = set_data_fn_fn_text(o);
    s.append(w.as_str());
    proof {
        assert(s@ =~= cpp_model_text(*o));
    }
    s
}

/// Adds a property's value type to the list of optional wrapper types,
/// if it is optional, fixed-size and not yet listed.
pub open spec fn opt_add(acc: Seq<ValueType>, p: ItemProperty) -> Seq<ValueType> {
    if p.optional && !p.spec_is_complex() && !acc.contains(p.value_type) {
        acc.push(p.value_type)
    } else {
        acc
    }
}

/// The wrapper types after the first `n` properties of `o`.
pub open spec fn opt_types_props(acc: Seq<ValueType>, o: Object, n: int) -> Seq<ValueType>
    decreases n,
{
    if n <= 0 {
        acc
    } else {
        opt_add(opt_types_props(acc, o, n - 1), o.item_properties@[n - 1])
    }
}

/// The wrapper types after the first `k` objects of the schema.
pub open spec fn opt_types_objs(conf: Config, k: int) -> Seq<ValueType>
    decreases k,
{
    if k <= 0 {
        Seq::empty()
    } else {
        opt_types_props(
            opt_types_objs(conf, k - 1),
            conf.objects@[k - 1],
            conf.objects@[k - 1].item_properties@.len() as int,
        )
    }
}

/// The fixed-size value types that occur as optional properties anywhere
/// in the schema, each once, in first-use order — declaration order, so
/// the prologue is deterministic.
pub open spec fn spec_optional_types(conf: Config) -> Seq<ValueType> {
    opt_types_objs(conf, conf.objects@.len() as int)
}

fn vt_contains(v: &Vec<ValueType>, x: ValueType) -> (r: bool)
    ensures
        r == v@.contains(x),
{
    let n = v.len();
    let mut i: usize = 0;
    while i < n
        invariant
            i <= n,
            n == v@.len(),
            forall|j: int| 0 <= j < i ==> v@[j] != x,
        decreases n - i,
    {
        if v[i] == x {
            return true;
        }
        i += 1;
    }
    false
}

/// Collects the optional fixed-size value types of the whole schema, in
/// first-use order.
pub fn optional_types(conf: &Config) -> (r: Vec<ValueType>)
    ensures
        r@ == spec_optional_types(*conf),
{
    let mut acc: Vec<ValueType> = Vec::new();
    let nk = conf.objects.len();
    let mut k: usize = 0;
    while k < nk
        invariant
            k <= nk,
            nk == conf.objects@.len(),
            acc@ == opt_types_objs(*conf, k as int),
        decreases nk - k,
    {
        let o = &conf.objects[k];
        let ghost acc0 = acc@;
        let np = o.item_properties.len();
        let mut i: usize = 0;
        while i < np
            invariant
                i <= np,
                (k as int) < conf.objects@.len(),
                o == &conf.objects@[k as int],
                np == o.item_properties@.len(),
                acc@ == opt_types_props(acc0, conf.objects@[k as int], i as int),
            decreases np - i,
        {
            let p = &o.item_properties[i];
            if p.optional && !p.is_complex() && !vt_contains(&acc, p.value_type) {
                acc.push(p.value_type);
            }
            i += 1;
        }
        k += 1;
    }
    acc
}

/// The wrapper struct carrying one optional fixed-size value into the
/// toolkit: the value and a presence flag, converting to the toolkit's
/// own null value when absent.
pub open spec fn option_struct_text(vt: ValueType) -> Seq<char> {
    "struct option_"@ + cpp_type(vt) + " {\npublic:\n    "@ + cpp_type(vt)
        + " value;\n    bool some;\n    operator QVariant() const {\n        if (some) {\n            return QVariant::fromValue(value);\n        }\n        return QVariant();\n    }\n};\n\n"@
}

/// Emits the wrapper struct of one optional fixed-size value type.
pub fn option_struct_fn_text(vt: ValueType) -> (r: String)
    ensures
        r@ == option_struct_text(vt),
{
    let mut s = String::new();
    s.append("struct option_");
    s.append(crate::surface::cpp_type_str(vt));
    s.append(" {\npublic:\n    ");
    s.append(crate::surface::cpp_type_str(vt));
    s.append(
        " value;\n    bool some;\n    operator QVariant() const {\n        if (some) {\n            return QVariant::fromValue(value);\n        }\n        return QVariant();\n    }\n};\n\n",
    );
    proof {
        assert(s@ =~= option_struct_text(vt));
    }
    s
}

/// The wrapper structs of the first `n` listed types.
pub open spec fn option_structs_text(ts: Seq<ValueType>, n: int) -> Seq<char>
    decreases n,
{
    if n <= 0 {
        Seq::empty()
    } else {
        option_structs_text(ts, n - 1) + option_struct_text(ts[n - 1])
    }
}

/// Symbol of the change notifier of property `i`: the helper the
/// implementation side calls to raise the toolkit's changed signal.
pub open spec fn changed_sym(o: Object, i: int) -> Seq<char> {
    o.lc_name@ + "_"@ + o.item_properties@[i].name@ + "_changed"@
}

/// The change-notifier helper of property `i`.
pub open spec fn changed_text(o: Object, i: int) -> Seq<char> {
    "inline void "@ + changed_sym(o, i) + "("@ + o.name@ + "* o)\n{\n    Q_EMIT o->"@
        + o.item_properties@[i].name@ + "Changed();\n}\n"@
}

/// The change notifiers of the first `n` properties of `o`.
pub open spec fn changed_props_text(o: Object, n: int) -> Seq<char>
    decreases n,
{
    if n <= 0 {
        Seq::empty()
    } else {
        changed_props_text(o, n - 1) + changed_text(o, n - 1)
    }
}

/// The change notifiers of the first `k` objects.
pub open spec fn changed_objs_text(conf: Config, k: int) -> Seq<char>
    decreases k,
{
    if k <= 0 {
        Seq::empty()
    } else {
        changed_objs_text(conf, k - 1) + changed_props_text(
            conf.objects@[k - 1],
            conf.objects@[k - 1].item_properties@.len() as int,
        )
    }
}

/// Emits the change-notifier helpers of every property of every object,
/// in declaration order.
pub fn write_changed_helpers(conf: &Config) -> (r: String)
    ensures
        r@ == changed_objs_text(*conf, conf.objects@.len() as int),
{
    let mut s = String::new();
    let nk = conf.objects.len();
    let mut k: usize = 0;
    while k < nk
        invariant
            k <= nk,
            nk == conf.objects@.len(),
            s@ == changed_objs_text(*conf, k as int),
        decreases nk - k,
    {
        let o = &conf.objects[k];
        let ghost head = s@;
        let np = o.item_properties.len();
        let mut i: usize = 0;
        while i < np
            invariant
                i <= np,
                (k as int) < conf.objects@.len(),
                o == &conf.objects@[k as int],
                np == o.item_properties@.len(),
                s@ == head + changed_props_text(conf.objects@[k as int], i as int),
            decreases np - i,
        {
            s.append("inline void ");
            s.append(o.lc_name.as_str());
            s.append("_");
            s.append(o.item_properties[i].name.as_str());
            s.append("_changed");
            s.append("(");
            s.append(o.name.as_str());
            s.append("* o)\n{\n    Q_EMIT o->");
            s.append(o.item_properties[i].name.as_str());
            s.append("Changed();\n}\n");
            proof {
                assert(s@ =~= head + changed_props_text(conf.objects@[k as int], i + 1 as int));
            }
            i += 1;
        }
        proof {
            assert(s@ =~= changed_objs_text(*conf, k + 1 as int));
        }
        k += 1;
    }
    s
}

/// The shared prologue of the native unit: one wrapper struct per
/// optional fixed-size value type, in first-use order, then the change
/// notifiers of every property.
pub open spec fn prologue_text(conf: Config) -> Seq<char> {
    option_structs_text(spec_optional_types(conf), spec_optional_types(conf).len() as int)
        + changed_objs_text(conf, conf.objects@.len() as int)
}

/// Everything one object contributes to the native unit: its surface
/// declarations, and for a container its data-access adapter.
pub open spec fn object_text(o: Object) -> Seq<char> {
    cpp_decls_text(o) + if o.spec_is_container() {
        cpp_model_text(o)
    } else {
        Seq::empty()
    }
}

/// The contributions of the first `k` objects, in declaration order.
pub open spec fn objects_text(conf: Config, k: int) -> Seq<char>
    decreases k,
{
    if k <= 0 {
        Seq::empty()
    } else {
        objects_text(conf, k - 1) + object_text(conf.objects@[k - 1])
    }
}

/// The whole native-side unit.
pub open spec fn cpp_unit_text(conf: Config) -> Seq<char> {
    prologue_text(conf) + objects_text(conf, conf.objects@.len() as int)
}

/// Emits the native-side unit: the prologue, then, per object in
/// declaration order, the surface declarations and — for the containers —
/// the data-access adapter. A schema in which some object claims one
/// (column, role) pair twice is rejected with the first offending
/// object's position, and nothing is emitted.
pub fn write_cpp(conf: &Config) -> (r: Result<String, crate::resolver::GenError>)
    requires
        conf.bounded(),
    ensures
        r is Ok <==> (forall|k: int|
            0 <= k < conf.objects@.len() ==> !spec_has_duplicate(#[trigger] conf.objects@[k])),
        r matches Ok(text) ==> text@ == cpp_unit_text(*conf),
        r matches Err(crate::resolver::GenError::DuplicateRole { object_index }) ==> {
            &&& (object_index as int) < conf.objects@.len()
            &&& spec_has_duplicate(conf.objects@[object_index as int])
            &&& forall|k: int|
                0 <= k < object_index ==> !spec_has_duplicate(#[trigger] conf.objects@[k])
        },
{
    match crate::resolver::check_config(conf) {
        Err(e) => Err(e),
        Ok(()) => {
            let types = optional_types(conf);
            let mut out = String::new();
            let nt = types.len();
            let mut t: usize = 0;
            while t < nt
                invariant
                    t <= nt,
                    nt == types@.len(),
                    types@ == spec_optional_types(*conf),
                    out@ == option_structs_text(types@, t as int),
                decreases nt - t,
            {
                let w = option_struct_fn_text(types[t]);
                out.append(w.as_str());
                t += 1;
            }
            let ch = write_changed_helpers(conf);
            out.append(ch.as_str());
            proof {
                assert(out@ =~= prologue_text(*conf));
            }
            let ghost head = out@;
            let nk = conf.objects.len();
            let mut k: usize = 0;
            while k < nk
                invariant
                    k <= nk,
                    nk == conf.objects@.len(),
                    conf.bounded(),
                    head == prologue_text(*conf),
                    out@ == head + objects_text(*conf, k as int),
                decreases nk - k,
            {
                let o = &conf.objects[k];
                let d = write_object_decls(o);
                out.append(d.as_str());
                if o.is_container() {
                    let m = write_cpp_model(o);
                    out.append(m.as_str());
                }
                proof {
                    assert(out@ =~= head + objects_text(*conf, k + 1 as int));
                }
                k += 1;
            }
            proof {
                assert(out@ =~= cpp_unit_text(*conf));
            }
            Ok(out)
        },
    }
}

/// The default role of the property at offset `i` is numerically
/// `USER_ROLE_BASE + i`, and both dispatch sites spell it from that same
/// offset: the read dispatch labels the case with it and the write
/// dispatch closes its condition with it, letter for letter.
pub proof fn lemma_default_role_numbering(i: int)
    requires
        0 <= i,
    ensures
        crate::spec_default_role(i) == crate::USER_ROLE_BASE as int + i,
        default_label_text(i) == "        case "@ + user_role_label(i) + ":\n"@,
        default_cond_text(i) == "role == "@ + user_role_label(i) + ") {\n"@,
{
}

/// Generation is deterministic: each artifact's text is a function of
/// the schema alone, so generating twice from an unchanged schema yields
/// byte-identical buffers.
pub proof fn lemma_generation_deterministic(
    conf: Config,
    o: Object,
    a: Seq<char>,
    b: Seq<char>,
    fa: Seq<char>,
    fb: Seq<char>,
)
    requires
        a == cpp_unit_text(conf),
        b == cpp_unit_text(conf),
        fa == crate::ffi::ffi_object_text(o),
        fb == crate::ffi::ffi_object_text(o),
    ensures
        a == b,
        fa == fb,
{
}

} // verus!
