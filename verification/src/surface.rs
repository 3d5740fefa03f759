//! The binding descriptor shared by the two emitters: symbol names,
//! per-property transfer modes and type spellings. Both artifacts draw
//! every name and signature from these definitions, so the cross-artifact
//! contract holds by construction rather than by convention.

use vstd::prelude::*;
use vstd::string::*;
use crate::schema::{ItemProperty, Object, ObjectKind, Role, ValueType};

verus! {

/// How a property's value crosses the surface.
#[derive(Clone, Copy, PartialEq, Eq, Structural, Debug)]
pub enum TransferMode {
    /// Required, fixed-size: by value.
    Direct,
    /// Optional, fixed-size: a tagged present/absent structure.
    OptionalDirect,
    /// Required, variable-length: delivered once through a callback as
    /// pointer and length.
    ComplexCallback,
    /// Optional, variable-length: delivered zero or one times through a
    /// callback; absence is the callback never running.
    OptionalComplexCallback,
}

/// The transfer mode of a property.
pub open spec fn spec_transfer_mode(p: ItemProperty) -> TransferMode {
    if p.spec_is_complex() {
        if p.optional {
            TransferMode::OptionalComplexCallback
        } else {
            TransferMode::ComplexCallback
        }
    } else {
        if p.optional {
            TransferMode::OptionalDirect
        } else {
            TransferMode::Direct
        }
    }
}

pub fn transfer_mode(p: &ItemProperty) -> (m: TransferMode)
    ensures
        m == spec_transfer_mode(*p),
{
    if p.is_complex() {
        if p.optional {
            TransferMode::OptionalComplexCallback
        } else {
            TransferMode::ComplexCallback
        }
    } else {
        if p.optional {
            TransferMode::OptionalDirect
        } else {
            TransferMode::Direct
        }
    }
}

/// Native-side spelling of a value type.
pub open spec fn cpp_type(vt: ValueType) -> Seq<char> {
    match vt {
        ValueType::Bool => "bool"@,
        ValueType::Int => "qint32"@,
        ValueType::UInt => "quint32"@,
        ValueType::Text => "QString"@,
        ValueType::Bytes => "QByteArray"@,
    }
}

pub fn cpp_type_str(vt: ValueType) -> (r: &'static str)
    ensures
        r@ == cpp_type(vt),
{
    match vt {
        ValueType::Bool => "bool",
        ValueType::Int => "qint32",
        ValueType::UInt => "quint32",
        ValueType::Text => "QString",
        ValueType::Bytes => "QByteArray",
    }
}

/// Implementation-side spelling of a value type.
pub open spec fn impl_type(vt: ValueType) -> Seq<char> {
    match vt {
        ValueType::Bool => "bool"@,
        ValueType::Int => "i32"@,
        ValueType::UInt => "u32"@,
        ValueType::Text => "String"@,
        ValueType::Bytes => "Vec<u8>"@,
    }
}

pub fn impl_type_str(vt: ValueType) -> (r: &'static str)
    ensures
        r@ == impl_type(vt),
{
    match vt {
        ValueType::Bool => "bool",
        ValueType::Int => "i32",
        ValueType::UInt => "u32",
        ValueType::Text => "String",
        ValueType::Bytes => "Vec<u8>",
    }
}

/// The toolkit's spelling of a named role.
pub open spec fn role_name(r: Role) -> Seq<char> {
    match r {
        Role::Display => "DisplayRole"@,
        Role::Decoration => "DecorationRole"@,
        Role::Edit => "EditRole"@,
        Role::ToolTip => "ToolTipRole"@,
        Role::StatusTip => "StatusTipRole"@,
        Role::WhatsThis => "WhatsThisRole"@,
    }
}

pub fn role_name_str(r: Role) -> (s: &'static str)
    ensures
        s@ == role_name(r),
{
    match r {
        Role::Display => "DisplayRole",
        Role::Decoration => "DecorationRole",
        Role::Edit => "EditRole",
        Role::ToolTip => "ToolTipRole",
        Role::StatusTip => "StatusTipRole",
        Role::WhatsThis => "WhatsThisRole",
    }
}

/// Symbol of an object-level operation: the object's lower-case stem, an
/// underscore, the operation.
pub open spec fn obj_sym(o: Object, op: Seq<char>) -> Seq<char> {
    o.lc_name@ + "_"@ + op
}

/// Symbol of the getter of property `i`.
pub open spec fn getter_sym(o: Object, i: int) -> Seq<char> {
    o.lc_name@ + "_data_"@ + o.item_properties@[i].name@
}

/// Symbol of the setter of property `i`.
pub open spec fn setter_sym(o: Object, i: int) -> Seq<char> {
    o.lc_name@ + "_set_data_"@ + o.item_properties@[i].name@
}

/// Symbol of the clear-to-absent setter of property `i`.
pub open spec fn clear_sym(o: Object, i: int) -> Seq<char> {
    setter_sym(o, i) + "_none"@
}

/// Builds an object-level operation symbol.
pub fn obj_symbol(o: &Object, op: &str) -> (r: String)
    ensures
        r@ == obj_sym(*o, op@),
{
    let mut s = String::new();
    s.append(o.lc_name.as_str());
    s.append("_");
    s.append(op);
    proof {
        assert(s@ =~= obj_sym(*o, op@));
    }
    s
}

/// Builds the getter symbol of property `i`.
pub fn getter_symbol(o: &Object, i: usize) -> (r: String)
    requires
        (i as int) < o.item_properties@.len(),
    ensures
        r@ == getter_sym(*o, i as int),
{
    let mut s = String::new();
    s.append(o.lc_name.as_str());
    s.append("_data_");
    s.append(o.item_properties[i].name.as_str());
    proof {
        assert(s@ =~= getter_sym(*o, i as int));
    }
    s
}

/// Builds the setter symbol of property `i`.
pub fn setter_symbol(o: &Object, i: usize) -> (r: String)
    requires
        (i as int) < o.item_properties@.len(),
    ensures
        r@ == setter_sym(*o, i as int),
{
    let mut s = String::new();
    s.append(o.lc_name.as_str());
    s.append("_set_data_");
    s.append(o.item_properties[i].name.as_str());
    proof {
        assert(s@ =~= setter_sym(*o, i as int));
    }
    s
}

/// Builds the clear-to-absent setter symbol of property `i`.
pub fn clear_symbol(o: &Object, i: usize) -> (r: String)
    requires
        (i as int) < o.item_properties@.len(),
    ensures
        r@ == clear_sym(*o, i as int),
{
    let mut s = setter_symbol(o, i);
    s.append("_none");
    proof {
        assert(s@ =~= clear_sym(*o, i as int));
    }
    s
}

/// The object-level operation symbols of an object's surface, in emission
/// order: none for a record, the paging and mutation entry points for the
/// containers.
pub open spec fn kind_syms(o: Object) -> Seq<Seq<char>> {
    match o.kind {
        ObjectKind::Record => Seq::empty(),
        ObjectKind::FlatContainer => seq![
            obj_sym(o, "row_count"@),
            obj_sym(o, "insert_rows"@),
            obj_sym(o, "remove_rows"@),
            obj_sym(o, "can_fetch_more"@),
            obj_sym(o, "fetch_more"@),
            obj_sym(o, "sort"@),
        ],
        ObjectKind::TreeContainer => seq![
            obj_sym(o, "row_count"@),
            obj_sym(o, "can_fetch_more"@),
            obj_sym(o, "fetch_more"@),
            obj_sym(o, "sort"@),
            obj_sym(o, "check_row"@),
            obj_sym(o, "index"@),
            obj_sym(o, "parent"@),
            obj_sym(o, "row"@),
        ],
    }
}

/// The symbols property `i` contributes: its getter, its setter when
/// writable, and additionally the clear-to-absent setter when writable
/// and optional.
pub open spec fn prop_syms(o: Object, i: int) -> Seq<Seq<char>> {
    let p = o.item_properties@[i];
    if p.writable {
        if p.optional {
            seq![getter_sym(o, i), setter_sym(o, i), clear_sym(o, i)]
        } else {
            seq![getter_sym(o, i), setter_sym(o, i)]
        }
    } else {
        seq![getter_sym(o, i)]
    }
}

/// The property symbols of the first `n` properties, in property order.
pub open spec fn prop_syms_upto(o: Object, n: int) -> Seq<Seq<char>>
    decreases n,
{
    if n <= 0 {
        Seq::empty()
    } else {
        prop_syms_upto(o, n - 1) + prop_syms(o, n - 1)
    }
}

/// Every symbol of the object's surface, in emission order. The native
/// artifact declares exactly these names and the implementation artifact
/// defines exactly these names, both in this order.
pub open spec fn surface_syms(o: Object) -> Seq<Seq<char>> {
    kind_syms(o) + prop_syms_upto(o, o.item_properties@.len() as int)
}

} // verus!
