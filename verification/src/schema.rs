//! The immutable schema the generator consumes.
//!
//! An external loader builds and validates this data; every component below
//! reads it and nothing mutates it. Property order is significant: it fixes
//! column order and the default role numbering.

use vstd::prelude::*;

verus! {

/// Which addressing scheme an object participates in. Only the two
/// container kinds take part in the data-access protocol.
#[derive(Clone, Copy, PartialEq, Eq, Structural, Debug)]
pub enum ObjectKind {
    /// A single record: no rows, no parents.
    Record,
    /// A flat list: a row's identity is its 0-based position.
    FlatContainer,
    /// A tree: a node's identity is a stable internal id, distinct from its
    /// position among its siblings.
    TreeContainer,
}

/// A named role tag: one of the toolkit's predefined channels through which
/// a facet of a property's value is requested.
#[derive(Clone, Copy, PartialEq, Eq, Structural, Debug)]
pub enum Role {
    Display,
    Decoration,
    Edit,
    ToolTip,
    StatusTip,
    WhatsThis,
}

impl Role {
    /// The toolkit's numeric value of the named role. All named roles sit
    /// below `USER_ROLE_BASE`, so they can never collide with a default role.
    pub open spec fn spec_value(self) -> int {
        match self {
            Role::Display => 0,
            Role::Decoration => 1,
            Role::Edit => 2,
            Role::ToolTip => 3,
            Role::StatusTip => 4,
            Role::WhatsThis => 5,
        }
    }

    /// Numeric value of the named role.
    pub fn value(self) -> (r: u32)
        ensures
            r == self.spec_value(),
            r < crate::USER_ROLE_BASE,
    {
        match self {
            Role::Display => 0,
            Role::Decoration => 1,
            Role::Edit => 2,
            Role::ToolTip => 3,
            Role::StatusTip => 4,
            Role::WhatsThis => 5,
        }
    }
}

/// Semantic type tag of a property's value.
#[derive(Clone, Copy, PartialEq, Eq, Structural, Debug)]
pub enum ValueType {
    Bool,
    Int,
    UInt,
    /// Variable-length text; transferred as pointer and length.
    Text,
    /// Variable-length byte blob; transferred as pointer and length.
    Bytes,
}

impl ValueType {
    /// Whether a value of this type is variable-length and therefore
    /// crosses the function surface by pointer and length rather than by
    /// value.
    pub open spec fn spec_is_complex(self) -> bool {
        match self {
            ValueType::Text => true,
            ValueType::Bytes => true,
            _ => false,
        }
    }

    pub fn is_complex(self) -> (r: bool)
        ensures
            r == self.spec_is_complex(),
    {
        match self {
            ValueType::Text => true,
            ValueType::Bytes => true,
            _ => false,
        }
    }
}

/// One named, typed field of an object.
pub struct ItemProperty {
    /// Identifier of the property, unique within its object; also the stem
    /// of the emitted accessor symbols. The external naming helper supplies
    /// it already in lower-case identifier form.
    pub name: String,
    /// Semantic type of the value.
    pub value_type: ValueType,
    /// Absence is representable and distinct from "empty".
    pub optional: bool,
    /// Whether a setter is part of the surface.
    pub writable: bool,
    /// Named role tags per column: entry `c` lists the named roles under
    /// which this property answers in column `c`. A missing or empty entry
    /// for column 0 still leaves the property visible there under its
    /// default role alone; for any other column it means "not visible".
    pub roles: Vec<Vec<Role>>,
}

impl ItemProperty {
    /// Whether this property's value is variable-length.
    pub open spec fn spec_is_complex(self) -> bool {
        self.value_type.spec_is_complex()
    }

    pub fn is_complex(&self) -> (r: bool)
        ensures
            r == self.spec_is_complex(),
    {
        self.value_type.is_complex()
    }

    /// The named roles this property lists for column `c`.
    pub open spec fn labels_at(self, c: int) -> Seq<Role> {
        if 0 <= c < self.roles@.len() {
            self.roles@[c]@
        } else {
            Seq::empty()
        }
    }

    /// Whether this property answers in column `c`: every property is
    /// visible in column 0, and in a later column exactly when it lists a
    /// named role there.
    pub open spec fn visible_in(self, c: int) -> bool {
        c == 0 || self.labels_at(c).len() > 0
    }
}

/// One schema entity describing a bound data source.
pub struct Object {
    /// Type-level name, as the native adapter spells it.
    pub name: String,
    /// Lower-case identifier stem shared by every emitted symbol of this
    /// object; the external naming helper derives it from `name`.
    pub lc_name: String,
    /// Addressing scheme.
    pub kind: ObjectKind,
    /// Ordered property sequence; the order fixes columns and default
    /// roles.
    pub item_properties: Vec<ItemProperty>,
}

impl Object {
    /// Whether the object takes part in the data-access protocol.
    pub open spec fn spec_is_container(self) -> bool {
        self.kind != ObjectKind::Record
    }

    /// Machine bounds forced by the emitted code: roles, columns and rows
    /// cross the boundary as signed 32-bit values, so property positions
    /// and column indices must stay well below 2^31.
    pub open spec fn bounded(self) -> bool {
        &&& self.item_properties@.len() <= 0x0FFF_FFFF
        &&& forall|i: int|
            0 <= i < self.item_properties@.len()
                ==> (#[trigger] self.item_properties@[i]).roles@.len() <= 0x7FFF_FFFE
    }

    pub fn is_container(&self) -> (r: bool)
        ensures
            r == self.spec_is_container(),
    {
        match self.kind {
            ObjectKind::Record => false,
            _ => true,
        }
    }
}

/// The whole schema: every object, in declaration order. Declaration order
/// drives emission order throughout, which keeps generation deterministic.
pub struct Config {
    pub objects: Vec<Object>,
}

impl Config {
    /// Machine bounds of every object, see `Object::bounded`.
    pub open spec fn bounded(self) -> bool {
        forall|k: int|
            0 <= k < self.objects@.len() ==> (#[trigger] self.objects@[k]).bounded()
    }
}

} // verus!
