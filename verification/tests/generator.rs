//! End-to-end checks of the two emitters on concrete schemas.

use riqtshaw::cpp::{optional_types, write_cpp, write_cpp_model};
use riqtshaw::ffi::write_ffi_object;
use riqtshaw::resolver::{check_config, column_count, has_duplicate, GenError};
use riqtshaw::schema::{Config, ItemProperty, Object, ObjectKind, Role, ValueType};
use riqtshaw::{default_role, USER_ROLE_BASE};

fn prop(
    name: &str,
    value_type: ValueType,
    optional: bool,
    writable: bool,
    roles: Vec<Vec<Role>>,
) -> ItemProperty {
    ItemProperty { name: name.to_string(), value_type, optional, writable, roles }
}

fn person() -> Object {
    Object {
        name: "Person".to_string(),
        lc_name: "person".to_string(),
        kind: ObjectKind::Record,
        item_properties: vec![
            prop("name", ValueType::Text, false, true, vec![vec![Role::Display]]),
            prop("nickname", ValueType::Text, true, true, vec![]),
        ],
    }
}

fn file_list() -> Object {
    Object {
        name: "FileList".to_string(),
        lc_name: "file_list".to_string(),
        kind: ObjectKind::FlatContainer,
        item_properties: vec![
            prop("name", ValueType::Text, false, true, vec![vec![Role::Display]]),
            prop("size", ValueType::UInt, false, false, vec![vec![], vec![Role::Display]]),
            prop(
                "modified",
                ValueType::Text,
                true,
                false,
                vec![vec![], vec![], vec![Role::Display, Role::ToolTip]],
            ),
        ],
    }
}

#[test]
fn default_role_base_numbering() {
    assert_eq!(default_role(0), USER_ROLE_BASE);
    assert_eq!(default_role(1), USER_ROLE_BASE + 1);
    assert_eq!(default_role(7), 263);
}

#[test]
fn column_count_counts_distinct_columns() {
    let o = file_list();
    assert_eq!(column_count(&o), 3);
    let rec = person();
    assert_eq!(column_count(&rec), 1);
    let empty = Object {
        name: "Empty".to_string(),
        lc_name: "empty".to_string(),
        kind: ObjectKind::Record,
        item_properties: vec![],
    };
    assert_eq!(column_count(&empty), 0);
}

#[test]
fn record_surface_has_one_getter_and_setter_per_property() {
    let text = write_ffi_object(&person());
    assert_eq!(text.matches("pub fn person_data_name(").count(), 1);
    assert_eq!(text.matches("pub fn person_set_data_name(").count(), 1);
    assert_eq!(text.matches("pub fn person_data_nickname(").count(), 1);
    assert_eq!(text.matches("pub fn person_set_data_nickname(").count(), 1);
    // no container entry points on a record
    assert!(!text.contains("person_row_count"));
    assert!(!text.contains("person_insert_rows"));
    assert!(!text.contains("person_index"));
}

#[test]
fn required_value_has_no_clear_entry_point() {
    let text = write_ffi_object(&person());
    // nickname may be cleared to absent through its dedicated entry point
    assert_eq!(text.matches("pub fn person_set_data_nickname_none(").count(), 1);
    // name is required: the surface offers no way to write an absent value
    assert!(!text.contains("person_set_data_name_none"));
}

#[test]
fn optional_complex_getter_invokes_callback_zero_or_one_times() {
    let text = write_ffi_object(&person());
    // required: the callback runs unconditionally, exactly once
    let name_getter = text
        .split("pub fn person_data_name(")
        .nth(1)
        .unwrap()
        .split("pub fn ")
        .next()
        .unwrap();
    assert_eq!(name_getter.matches("set(d, ").count(), 1);
    assert!(!name_getter.contains("if let Some"));
    // optional: the callback runs only under the present case
    let nick_getter = text
        .split("pub fn person_data_nickname(")
        .nth(1)
        .unwrap()
        .split("pub fn ")
        .next()
        .unwrap();
    assert!(nick_getter.contains("if let Some(data)"));
    assert_eq!(nick_getter.matches("set(d, ").count(), 1);
}

#[test]
fn flat_container_dispatch_has_one_case_per_column() {
    let conf = Config { objects: vec![file_list()] };
    let text = write_cpp(&conf).unwrap();
    let data = text.split("FileList::data(").nth(1).unwrap();
    let dispatch = data.split("return QVariant();").next().unwrap();
    assert!(dispatch.contains("    case 0:"));
    assert!(dispatch.contains("    case 1:"));
    assert!(dispatch.contains("    case 2:"));
    assert!(!dispatch.contains("    case 3:"));

    let col0 = dispatch.split("    case 0:").nth(1).unwrap().split("    case 1:").next().unwrap();
    let col1 = dispatch.split("    case 1:").nth(1).unwrap().split("    case 2:").next().unwrap();
    let col2 = dispatch.split("    case 2:").nth(1).unwrap();

    // every property answers in column 0 under its default role
    assert!(col0.contains("case Qt::UserRole + 0:"));
    assert!(col0.contains("case Qt::UserRole + 1:"));
    assert!(col0.contains("case Qt::UserRole + 2:"));
    // later columns hold only the property that declares roles there
    assert!(col1.contains("case Qt::UserRole + 1:"));
    assert!(!col1.contains("case Qt::UserRole + 0:"));
    assert!(!col1.contains("case Qt::UserRole + 2:"));
    assert!(col2.contains("case Qt::UserRole + 2:"));
    assert!(!col2.contains("case Qt::UserRole + 0:"));
    assert!(!col2.contains("case Qt::UserRole + 1:"));
    // named roles declared for a column appear beside the default
    assert!(col2.contains("case Qt::DisplayRole:"));
    assert!(col2.contains("case Qt::ToolTipRole:"));
}

#[test]
fn optional_fixed_size_value_crosses_as_tagged_structure() {
    let counter = Object {
        name: "Counter".to_string(),
        lc_name: "counter".to_string(),
        kind: ObjectKind::FlatContainer,
        item_properties: vec![prop("value", ValueType::UInt, true, true, vec![])],
    };
    let text = write_ffi_object(&counter);
    assert!(text.contains("pub fn counter_data_value(obj: &Counter, row: c_int) -> COption<u32> {"));
    assert!(text.contains("None => return COption::absent(),"));
    // the setter wraps the present case, the clear entry writes absent
    assert!(text.contains("obj.set_value(r, Some(v))"));
    assert!(text.contains("pub fn counter_set_data_value_none(obj: &mut Counter, row: c_int) -> bool {"));
    assert!(text.contains("obj.set_value(r, None)"));
    // the adapter declares the matching tagged type
    let conf = Config { objects: vec![counter] };
    let adapter = write_cpp(&conf).unwrap();
    assert!(adapter.contains("option_quint32 counter_data_value(const Counter::Private*, int);"));
    assert!(adapter.starts_with("struct option_quint32 {"));
}

#[test]
fn generation_is_deterministic() {
    let conf = Config { objects: vec![person(), file_list()] };
    let a = write_cpp(&conf).unwrap();
    let b = write_cpp(&conf).unwrap();
    assert_eq!(a.as_bytes(), b.as_bytes());
    let fa = write_ffi_object(&conf.objects[1]);
    let fb = write_ffi_object(&conf.objects[1]);
    assert_eq!(fa.as_bytes(), fb.as_bytes());
}

#[test]
fn duplicate_role_claim_fails_generation() {
    let mut o = file_list();
    // a second property claiming (column 0, Display) already claimed by `name`
    o.item_properties[1].roles = vec![vec![Role::Display]];
    assert!(has_duplicate(&o));
    let conf = Config { objects: vec![person(), o] };
    assert_eq!(check_config(&conf), Err(GenError::DuplicateRole { object_index: 1 }));
    assert_eq!(write_cpp(&conf), Err(GenError::DuplicateRole { object_index: 1 }));
}

#[test]
fn duplicate_within_one_property_fails_generation() {
    let mut o = file_list();
    o.item_properties[2].roles = vec![vec![], vec![], vec![Role::Display, Role::Display]];
    assert!(has_duplicate(&o));
}

#[test]
fn distinct_roles_pass_the_duplicate_check() {
    assert!(!has_duplicate(&file_list()));
    assert!(!has_duplicate(&person()));
    let conf = Config { objects: vec![person(), file_list()] };
    assert!(check_config(&conf).is_ok());
}

#[test]
fn optional_types_are_deduplicated_in_first_use_order() {
    let a = Object {
        name: "A".to_string(),
        lc_name: "a".to_string(),
        kind: ObjectKind::Record,
        item_properties: vec![
            prop("x", ValueType::UInt, true, false, vec![]),
            prop("y", ValueType::Bool, true, false, vec![]),
            prop("z", ValueType::UInt, true, false, vec![]),
            prop("w", ValueType::Text, true, false, vec![]),
            prop("v", ValueType::Int, false, false, vec![]),
        ],
    };
    let conf = Config { objects: vec![a] };
    let types = optional_types(&conf);
    // text is complex, v is required: neither needs a wrapper type
    assert_eq!(types, vec![ValueType::UInt, ValueType::Bool]);
}

#[test]
fn prologue_holds_change_notifiers() {
    let conf = Config { objects: vec![person()] };
    let text = write_cpp(&conf).unwrap();
    assert!(text.contains("inline void person_name_changed(Person* o)"));
    assert!(text.contains("Q_EMIT o->nicknameChanged();"));
}

#[test]
fn prologue_holds_option_wrappers() {
    let conf = Config {
        objects: vec![Object {
            name: "A".to_string(),
            lc_name: "a".to_string(),
            kind: ObjectKind::Record,
            item_properties: vec![prop("x", ValueType::UInt, true, false, vec![])],
        }],
    };
    let text = write_cpp(&conf).unwrap();
    assert!(text.starts_with("struct option_quint32 {"));
    assert!(text.contains("operator QVariant() const"));
}

#[test]
fn adapter_normalizes_absent_complex_values() {
    let conf = Config { objects: vec![file_list()] };
    let text = write_cpp(&conf).unwrap();
    // `modified` is optional and variable-length: its raw absence is
    // normalized into the toolkit's own null value
    assert!(text.contains("return cleanNullQVariant(QVariant::fromValue(modified(index.row())));"));
    // `name` is required: wrapped directly
    assert!(text.contains("return QVariant::fromValue(name(index.row()));"));
}

#[test]
fn adapter_and_surface_agree_on_symbols() {
    let o = file_list();
    let conf = Config { objects: vec![o] };
    let adapter = write_cpp(&conf).unwrap();
    let surface = write_ffi_object(&conf.objects[0]);
    for sym in [
        "file_list_row_count",
        "file_list_insert_rows",
        "file_list_remove_rows",
        "file_list_can_fetch_more",
        "file_list_fetch_more",
        "file_list_sort",
        "file_list_data_name",
        "file_list_set_data_name",
        "file_list_data_size",
        "file_list_data_modified",
    ] {
        assert!(adapter.contains(sym), "adapter lacks {}", sym);
        assert!(surface.contains(sym), "surface lacks {}", sym);
    }
}

#[test]
fn setdata_checks_declared_type_and_lets_null_clear_optionals() {
    let conf = Config { objects: vec![file_list()] };
    let text = write_cpp(&conf).unwrap();
    let set = text.split("FileList::setData(").nth(1).unwrap();
    // only column 0 holds a writable property
    assert!(set.contains("if (index.column() == 0)"));
    assert!(!set.contains("if (index.column() == 1)"));
    // required text value: type check without a null escape
    assert!(set.contains("if (value.canConvert(qMetaTypeId<QString>()))"));
    assert!(!set.contains("!value.isValid() || value.isNull() ||"));
}

#[test]
fn record_emits_no_model_adapter() {
    let conf = Config { objects: vec![person()] };
    let text = write_cpp(&conf).unwrap();
    assert!(!text.contains("Person::data("));
    assert!(!text.contains("Person::rowCount("));
    // but its accessors are declared for the implementation side
    assert!(text.contains("person_data_name"));
    assert!(text.contains("person_set_data_nickname_none"));
}

#[test]
fn tree_container_adapter_translates_indexes() {
    let tree = Object {
        name: "Outline".to_string(),
        lc_name: "outline".to_string(),
        kind: ObjectKind::TreeContainer,
        item_properties: vec![prop("label", ValueType::Text, false, false, vec![vec![
            Role::Display,
        ]])],
    };
    let conf = Config { objects: vec![tree] };
    let text = write_cpp(&conf).unwrap();
    // the bounds checks precede any id lookup
    assert!(text.contains("if (row < 0 || column < 0 || column >= 1)"));
    assert!(text.contains("outline_index(m_d, option_index(parent), row)"));
    assert!(text.contains("outline_parent(m_d, index.internalId())"));
    let model = write_cpp_model(&conf.objects[0]);
    assert!(text.contains(&model));
}

#[test]
fn role_names_enumerate_default_roles() {
    let conf = Config { objects: vec![file_list()] };
    let text = write_cpp(&conf).unwrap();
    let names = text.split("FileList::roleNames()").nth(1).unwrap().split("}\n").next().unwrap();
    assert!(names.contains("names.insert(Qt::UserRole + 0, \"name\");"));
    assert!(names.contains("names.insert(Qt::UserRole + 1, \"size\");"));
    assert!(names.contains("names.insert(Qt::UserRole + 2, \"modified\");"));
}

#[test]
fn flags_mark_writable_columns_editable() {
    let conf = Config { objects: vec![file_list()] };
    let text = write_cpp(&conf).unwrap();
    let flags = text.split("FileList::flags(").nth(1).unwrap().split("return flags;").next().unwrap();
    // only column 0 holds a writable property
    assert!(flags.contains("if (i.column() == 0)"));
    assert!(flags.contains("flags |= Qt::ItemIsEditable;"));
    assert!(!flags.contains("if (i.column() == 1)"));
    assert!(!flags.contains("if (i.column() == 2)"));
}

#[test]
fn container_members_delegate_to_the_surface() {
    let conf = Config { objects: vec![file_list()] };
    let text = write_cpp(&conf).unwrap();
    assert!(text.contains("return file_list_insert_rows(m_d, row, count);"));
    assert!(text.contains("return file_list_remove_rows(m_d, row, count);"));
    assert!(text.contains("return !parent.isValid() && file_list_can_fetch_more(m_d);"));
    assert!(text.contains("file_list_fetch_more(m_d);"));
    assert!(text.contains("return file_list_row_count(m_d);"));
}

#[test]
fn model_text_stands_inside_the_unit() {
    let conf = Config { objects: vec![file_list()] };
    let text = write_cpp(&conf).unwrap();
    let model = write_cpp_model(&conf.objects[0]);
    assert!(text.contains(&model));
    assert!(model.contains("FileList::sort(int column, Qt::SortOrder order)"));
    assert!(model.contains("file_list_sort(m_d, column, static_cast<int>(order));"));
    assert!(model.contains("FileList::headerData(int section"));
    assert!(model.contains("QString::number(section + 1)"));
}
