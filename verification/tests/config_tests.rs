use datastruct::cmp::FieldCmpConfig;
use datastruct::field_config::{FieldConfig, GetterType, SetterType};
use datastruct::generate::{FieldDecl, RichStructContent, StructDecl};
use datastruct::meta::{collect_meta_map, collect_meta_set, AttrEntry, LitVal};
use datastruct::ops::{OpsAssignableType, OpsType, StructOpsConfig};
use datastruct::plan::PlanMember;
use datastruct::struct_config::StructConfig;
use datastruct::synerr::{DiagKind, ResultExt};

fn flag(name: &str, span: u64) -> AttrEntry {
    AttrEntry::Flag { name: name.to_string(), span }
}

fn kv_str(name: &str, v: &str, span: u64) -> AttrEntry {
    AttrEntry::KeyValue { name: name.to_string(), value: LitVal::Str(v.to_string()), span }
}

fn kv_int(name: &str, v: i64, span: u64) -> AttrEntry {
    AttrEntry::KeyValue { name: name.to_string(), value: LitVal::Int(v), span }
}

fn kv_bool(name: &str, v: bool, span: u64) -> AttrEntry {
    AttrEntry::KeyValue { name: name.to_string(), value: LitVal::Bool(v), span }
}

fn group(name: &str, entries: Vec<AttrEntry>, span: u64) -> AttrEntry {
    AttrEntry::Group { name: name.to_string(), entries, span }
}

fn field(name: &str, entries: Vec<AttrEntry>) -> FieldDecl {
    FieldDecl { ident: name.to_string(), inline_default: None, entries, span: 0 }
}

fn decl(name: &str, entries: Vec<AttrEntry>, fields: Vec<FieldDecl>) -> StructDecl {
    StructDecl { ident: name.to_string(), entries, fields, span: 0 }
}

#[test]
fn test_mode_names() {
    assert_eq!(Some(SetterType::Full), SetterType::from_str("full"));
    assert_eq!(Some(SetterType::Full), SetterType::from_str("all"));
    assert_eq!(Some(SetterType::SetOnly), SetterType::from_str("set"));
    assert_eq!(Some(SetterType::WithOnly), SetterType::from_str("with"));
    assert_eq!(Some(SetterType::No), SetterType::from_str("no"));
    assert_eq!(None, SetterType::from_str("other"));

    assert_eq!(Some(GetterType::Full), GetterType::from_str("full"));
    assert_eq!(Some(GetterType::MoveOnly), GetterType::from_str("move"));
    assert_eq!(Some(GetterType::GetOnly), GetterType::from_str("get"));
    assert_eq!(Some(GetterType::No), GetterType::from_str("no"));
    assert_eq!(None, GetterType::from_str(""));

    assert_eq!(Some(OpsType::Add), OpsType::from_str("add"));
    assert_eq!(Some(OpsType::Sub), OpsType::from_str("sub"));
    assert_eq!(Some(OpsType::Mul), OpsType::from_str("mul"));
    assert_eq!(Some(OpsType::Div), OpsType::from_str("div"));
    assert_eq!(None, OpsType::from_str("rem"));

    assert_eq!(Some(OpsAssignableType::Both), OpsAssignableType::from_str("both"));
    assert_eq!(Some(OpsAssignableType::Both), OpsAssignableType::from_str("all"));
    assert_eq!(Some(OpsAssignableType::Assign), OpsAssignableType::from_str("assign"));
    assert_eq!(Some(OpsAssignableType::Plain), OpsAssignableType::from_str("plain"));
    assert_eq!(Some(OpsAssignableType::Plain), OpsAssignableType::from_str("default"));
    assert_eq!(None, OpsAssignableType::from_str("neither"));
}

#[test]
fn test_field_error_kinds() {
    // A `seq` whose literal is no integer is a value error.
    let entries = vec![kv_str("seq", "soon", 7)];
    let e = FieldConfig::from_attribute(&entries, SetterType::No, GetterType::No).unwrap_err();
    assert_eq!(1, e.diags.len());
    assert_eq!(DiagKind::ConfigValueError, e.diags[0].kind);
    assert_eq!(7, e.diags[0].span);

    // A `default` with a non-string literal is a shape error.
    let entries = vec![kv_int("default", 42, 3)];
    let e = FieldConfig::from_attribute(&entries, SetterType::No, GetterType::No).unwrap_err();
    assert_eq!(DiagKind::ConfigShapeError, e.diags[0].kind);

    // An empty `default` and one that is no expression are value errors.
    let entries = vec![kv_str("default", "", 4)];
    let e = FieldConfig::from_attribute(&entries, SetterType::No, GetterType::No).unwrap_err();
    assert_eq!(DiagKind::ConfigValueError, e.diags[0].kind);
    let entries = vec![kv_str("default", "1 +", 5)];
    let e = FieldConfig::from_attribute(&entries, SetterType::No, GetterType::No).unwrap_err();
    assert_eq!(DiagKind::ConfigValueError, e.diags[0].kind);

    // An unknown accessor mode is a value error.
    let entries = vec![kv_str("get", "borrow", 6)];
    let e = FieldConfig::from_attribute(&entries, SetterType::No, GetterType::No).unwrap_err();
    assert_eq!(DiagKind::ConfigValueError, e.diags[0].kind);

    // An unknown operator key is rejected as unknown.
    let entries = vec![group("ops", vec![flag("rem", 2)], 1)];
    let e = FieldConfig::from_attribute(&entries, SetterType::No, GetterType::No).unwrap_err();
    assert_eq!(DiagKind::UnknownOptionError, e.diags[0].kind);

    // Unknown names at the top level are passed over in silence.
    let entries = vec![flag("serde", 1), kv_str("rename", "x", 2)];
    let cfg = FieldConfig::from_attribute(&entries, SetterType::No, GetterType::No).unwrap();
    assert_eq!(None, cfg.init_seq);
}

#[test]
fn test_errors_aggregate() {
    // Two bad options in one pass surface together, in order.
    let entries = vec![kv_str("seq", "x", 1), kv_int("default", 9, 2)];
    let e = FieldConfig::from_attribute(&entries, SetterType::No, GetterType::No).unwrap_err();
    assert_eq!(2, e.diags.len());
    assert_eq!(DiagKind::ConfigValueError, e.diags[0].kind);
    assert_eq!(1, e.diags[0].span);
    assert_eq!(DiagKind::ConfigShapeError, e.diags[1].kind);
    assert_eq!(2, e.diags[1].span);

    // Failures of the structure and of several fields surface together.
    let d = decl(
        "Manifold",
        vec![kv_int("debug", 1, 1)],
        vec![
            field("a", vec![kv_str("seq", "x", 2)]),
            field("b", vec![kv_str("get", "y", 3)]),
        ],
    );
    let e = RichStructContent::from_syntax(d).unwrap_err();
    assert_eq!(3, e.diags.len());
    assert_eq!(vec![1, 2, 3], e.diags.iter().map(|d| d.span).collect::<Vec<u64>>());
}

#[test]
fn test_struct_defaults_flow_to_fields() {
    // The structure-level `set = "with"` reaches fields that say nothing,
    // and a field's own mode overrides it.
    let d = decl(
        "Flowing",
        vec![kv_str("set", "with", 1), flag("get", 2)],
        vec![field("a", vec![]), field("b", vec![kv_str("set", "no", 3)])],
    );
    let content = RichStructContent::from_syntax(d).unwrap();
    let plan = content.to_impl().unwrap();
    let has = |m: &PlanMember| plan.members.iter().any(|x| x == m);
    assert!(has(&PlanMember::WithSetter { field: "a".to_string() }));
    assert!(!has(&PlanMember::Setter { field: "a".to_string() }));
    assert!(has(&PlanMember::Getter { field: "a".to_string() }));
    assert!(!has(&PlanMember::WithSetter { field: "b".to_string() }));
    assert!(has(&PlanMember::Getter { field: "b".to_string() }));
}

#[test]
fn test_inline_default_precedence() {
    // An inline initializer serves as the default, and an explicit
    // `default` option beats it.
    let d = decl(
        "Inline",
        vec![flag("default", 1)],
        vec![
            FieldDecl {
                ident: "a".to_string(),
                inline_default: Some("5".to_string()),
                entries: vec![],
                span: 0,
            },
            FieldDecl {
                ident: "b".to_string(),
                inline_default: Some("5".to_string()),
                entries: vec![kv_str("default", "9", 2)],
                span: 0,
            },
        ],
    );
    let content = RichStructContent::from_syntax(d).unwrap();
    let plan = content.to_impl().unwrap();
    for m in &plan.members {
        if let PlanMember::RuntimeDefault { bindings } = m {
            assert_eq!("5", bindings[0].expr);
            assert_eq!("9", bindings[1].expr);
            return;
        }
    }
    panic!("no runtime default member");
}

#[test]
fn test_missing_default_fails_modes() {
    // A requested full default mode fails when some field lacks a default
    // expression, reported at the structure's own position.
    let d = decl(
        "Lacking",
        vec![flag("default", 1), flag("get", 2)],
        vec![field("a", vec![])],
    );
    let content = RichStructContent::from_syntax(d).unwrap();
    let e = content.to_impl().unwrap_err();
    assert_eq!(1, e.diags.len());
    assert_eq!(DiagKind::MissingDefaultForModeError, e.diags[0].kind);
    assert_eq!(0, e.diags[0].span);

    // The constant and standard modes fail the same way ...
    let d = decl("Lacking2", vec![flag("const", 1)], vec![field("a", vec![])]);
    let content = RichStructContent::from_syntax(d).unwrap();
    assert!(content.to_impl().is_err());
    let d = decl("Lacking3", vec![flag("std_default", 1)], vec![field("a", vec![])]);
    let content = RichStructContent::from_syntax(d).unwrap();
    assert!(content.to_impl().is_err());

    // ... while the partial constructor tolerates the missing default and
    // makes the field a parameter.
    let d = decl("Tolerant", vec![flag("partial", 1)], vec![field("a", vec![])]);
    let content = RichStructContent::from_syntax(d).unwrap();
    let plan = content.to_impl().unwrap();
    let mut found = false;
    for m in &plan.members {
        if let PlanMember::PartialDefault { params, .. } = m {
            assert_eq!(vec!["a".to_string()], params.clone());
            found = true;
        }
    }
    assert!(found);
}

#[test]
fn test_vacuous_equality_accepted() {
    // Partial equality with every field opted out yields the degenerate
    // always-equal member, not an error.
    let d = decl(
        "Vacuous",
        vec![group("cmp", vec![flag("peq", 2)], 1)],
        vec![field("a", vec![group("cmp", vec![kv_bool("eq", false, 4)], 3)])],
    );
    let content = RichStructContent::from_syntax(d).unwrap();
    let plan = content.to_impl().unwrap();
    assert!(plan.members.contains(&PlanMember::PartialEqImpl { fields: vec![] }));
}

#[test]
fn test_rank_literals() {
    // Ordering ranks can come as integers, as strings holding integers, or
    // positionally from a bare key; `false` takes a field out again.
    let (cfg, diags) = FieldCmpConfig::from_meta(&vec![
        kv_int("ord", -1, 1),
        kv_str("pord", "7", 2),
    ]);
    assert!(diags.is_empty());
    assert_eq!(Some(-1), cfg.ord);
    assert_eq!(Some(7), cfg.partial_ord);

    let (cfg, diags) = FieldCmpConfig::from_meta(&vec![flag("ord", 1), flag("eq", 2)]);
    assert!(diags.is_empty());
    assert_eq!(Some(0), cfg.ord);
    assert!(cfg.eq);

    let (cfg, diags) = FieldCmpConfig::from_meta(&vec![
        kv_int("ord", 5, 1),
        kv_bool("ord", false, 2),
    ]);
    assert!(diags.is_empty());
    assert_eq!(None, cfg.ord);

    let (cfg, diags) = FieldCmpConfig::from_meta(&vec![kv_str("ord", "soon", 3)]);
    assert_eq!(1, diags.len());
    assert_eq!(DiagKind::ConfigValueError, diags[0].kind);
    assert_eq!(None, cfg.ord);

    // An equality switch can come as a string holding a boolean.
    let (cfg, diags) = FieldCmpConfig::from_meta(&vec![kv_str("eq", "false", 1)]);
    assert!(diags.is_empty());
    assert!(!cfg.eq);
}

#[test]
fn test_struct_ops_merge() {
    // Later `ops(...)` groups override the families they set and leave the
    // others alone; `false` clears a family only within its own group.
    let (first, d1) = StructOpsConfig::from_meta(&vec![
        kv_str("add", "both", 1),
        kv_str("sub", "assign", 2),
    ]);
    assert!(d1.is_empty());
    let (second, d2) = StructOpsConfig::from_meta(&vec![
        kv_bool("add", false, 3),
        flag("mul", 4),
    ]);
    assert!(d2.is_empty());
    assert_eq!(None, second.add);
    let mut merged = first;
    merged.mut_and(second);
    assert_eq!(Some(OpsAssignableType::Both), merged.add);
    assert_eq!(Some(OpsAssignableType::Assign), merged.sub);
    assert_eq!(Some(OpsAssignableType::Plain), merged.mul);
    assert_eq!(None, merged.div);
    // Within one group the clearing does land: a family set and then
    // switched off ends unset.
    let (alone, d3) = StructOpsConfig::from_meta(&vec![
        kv_str("add", "both", 1),
        kv_bool("add", false, 2),
    ]);
    assert!(d3.is_empty());
    assert_eq!(None, alone.add);
}

#[test]
fn test_collectors() {
    // Set-mode collection takes bare names and bare strings and rejects
    // everything else, without stopping.
    let entries = vec![
        flag("eq", 1),
        AttrEntry::Literal { value: LitVal::Str("ord".to_string()), span: 2 },
        kv_bool("peq", true, 3),
        AttrEntry::Opaque { span: 4 },
        flag("pord", 5),
    ];
    let (items, diags) = collect_meta_set(&entries);
    let names: Vec<String> = items.iter().map(|(n, _)| n.clone()).collect();
    assert_eq!(vec!["eq".to_string(), "ord".to_string(), "pord".to_string()], names);
    assert_eq!(2, diags.len());
    assert_eq!(DiagKind::ConfigShapeError, diags[0].kind);
    assert_eq!(vec![3, 4], diags.iter().map(|d| d.span).collect::<Vec<u64>>());

    // Map-mode collection keeps each entry's position and passes the rest
    // over in silence.
    let entries = vec![
        AttrEntry::Literal { value: LitVal::Int(1), span: 1 },
        flag("ord", 2),
        kv_int("pord", 4, 3),
    ];
    let items = collect_meta_map(&entries);
    assert_eq!(2, items.len());
    assert_eq!(1, items[0].0);
    assert_eq!("ord", items[0].1);
    assert_eq!(None, items[0].2);
    assert_eq!(2, items[1].0);
    assert!(matches!(items[1].2, Some(LitVal::Int(4))));
}

#[test]
fn test_struct_config_modes() {
    // Boolean values switch structure flags both ways; the last write wins.
    let entries = vec![
        flag("default", 1),
        kv_bool("default", false, 2),
        flag("std_default", 3),
        kv_bool("debug", true, 4),
    ];
    let cfg = StructConfig::from_attribute(&entries, 9).unwrap();
    assert!(!cfg.generate_default);
    assert!(cfg.impl_std_default);
    assert!(cfg.manual_debug);
    assert!(!cfg.partial_default);
    assert_eq!(SetterType::No, cfg.override_auto_set);
    assert_eq!(GetterType::No, cfg.override_auto_get);
}

#[test]
fn test_result_swap() {
    let r: Result<u8, &str> = Ok(3);
    assert_eq!(Err(3), r.swap());
    let r: Result<u8, &str> = Err("no");
    assert_eq!(Ok("no"), r.swap());
}
