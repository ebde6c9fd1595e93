use datastruct::cmp::FieldCmpConfig;
use datastruct::field_config::{FieldConfig, GetterType, SetterType};
use datastruct::generate::{FieldDecl, RichStructContent, StructDecl};
use datastruct::meta::{AttrEntry, LitVal};
use datastruct::plan::{Binding, PlanMember, SynthesisPlan};
use datastruct::synerr::DiagKind;

fn flag(name: &str, span: u64) -> AttrEntry {
    AttrEntry::Flag { name: name.to_string(), span }
}

fn kv_str(name: &str, v: &str, span: u64) -> AttrEntry {
    AttrEntry::KeyValue { name: name.to_string(), value: LitVal::Str(v.to_string()), span }
}

fn kv_int(name: &str, v: i64, span: u64) -> AttrEntry {
    AttrEntry::KeyValue { name: name.to_string(), value: LitVal::Int(v), span }
}

fn kv_bool(name: &str, v: bool, span: u64) -> AttrEntry {
    AttrEntry::KeyValue { name: name.to_string(), value: LitVal::Bool(v), span }
}

fn group(name: &str, entries: Vec<AttrEntry>, span: u64) -> AttrEntry {
    AttrEntry::Group { name: name.to_string(), entries, span }
}

fn field(name: &str, entries: Vec<AttrEntry>) -> FieldDecl {
    FieldDecl { ident: name.to_string(), inline_default: None, entries, span: 0 }
}

fn decl(name: &str, entries: Vec<AttrEntry>, fields: Vec<FieldDecl>) -> StructDecl {
    StructDecl { ident: name.to_string(), entries, fields, span: 0 }
}

fn bindings_of(bs: &[Binding]) -> Vec<(String, String)> {
    bs.iter().map(|b| (b.field.clone(), b.expr.clone())).collect()
}

fn runtime_bindings(plan: &SynthesisPlan) -> Vec<(String, String)> {
    for m in &plan.members {
        if let PlanMember::RuntimeDefault { bindings } = m {
            return bindings_of(bindings);
        }
    }
    panic!("no runtime default member");
}

fn const_bindings(plan: &SynthesisPlan) -> Vec<(String, String)> {
    for m in &plan.members {
        if let PlanMember::ConstDefault { bindings } = m {
            return bindings_of(bindings);
        }
    }
    panic!("no constant default member");
}

fn has_member(plan: &SynthesisPlan, want: &PlanMember) -> bool {
    plan.members.iter().any(|m| m == want)
}

fn s(x: &str) -> String {
    x.to_string()
}

#[test]
fn test_attr() {
    // #[dstruct(default, const, set)] struct DevTest { field1: u8 = 10, field2: u8 = 10 }
    let dev = decl(
        "DevTest",
        vec![flag("default", 1), flag("const", 2), flag("set", 3)],
        vec![
            field("field1", vec![kv_str("default", "10", 4)]),
            field("field2", vec![kv_str("default", "10", 5)]),
        ],
    );
    let content = RichStructContent::from_syntax(dev).unwrap();
    let plan = content.to_impl().unwrap();
    // data_default constructs field1 = 10, field2 = 10 ...
    assert_eq!(vec![(s("field1"), s("10")), (s("field2"), s("10"))], runtime_bindings(&plan));
    // ... and the constant default constructs the very same values.
    assert_eq!(runtime_bindings(&plan), const_bindings(&plan));
    // with_field1(5) keeps field2 at its value: the chaining setter exists
    // for each field, and so does the plain one.
    assert!(has_member(&plan, &PlanMember::WithSetter { field: s("field1") }));
    assert!(has_member(&plan, &PlanMember::Setter { field: s("field1") }));
    assert!(has_member(&plan, &PlanMember::WithSetter { field: s("field2") }));

    // #[dstruct(default, get)] struct RichDevTest { vec (get = "full"), cnt }
    let rich = decl(
        "RichDevTest",
        vec![flag("default", 1), flag("get", 2)],
        vec![
            field("vec", vec![kv_str("default", "vec![]", 3), kv_str("get", "full", 4)]),
            field("cnt", vec![kv_str("default", "fn_default()", 5)]),
        ],
    );
    let content = RichStructContent::from_syntax(rich).unwrap();
    let plan = content.to_impl().unwrap();
    assert_eq!(
        vec![(s("vec"), s("vec![]")), (s("cnt"), s("fn_default()"))],
        runtime_bindings(&plan)
    );
    // rich_default.vec() borrows, rich_default.get_vec() moves out.
    assert!(has_member(&plan, &PlanMember::Getter { field: s("vec") }));
    assert!(has_member(&plan, &PlanMember::MoveGetter { field: s("vec") }));
    // cnt keeps the structure default: borrowing accessor only.
    assert!(has_member(&plan, &PlanMember::Getter { field: s("cnt") }));
    assert!(!has_member(&plan, &PlanMember::MoveGetter { field: s("cnt") }));

    // #[dstruct(partial)] struct NotAllDefault { value (map), value_default = 1 (do_with) }
    let partial = decl(
        "NotAllDefault",
        vec![flag("partial", 1)],
        vec![
            field("value", vec![flag("map", 2)]),
            field("value_default", vec![kv_str("default", "1", 3), flag("do_with", 4)]),
        ],
    );
    let content = RichStructContent::from_syntax(partial).unwrap();
    let plan = content.to_impl().unwrap();
    // partial_default(5) takes exactly `value` and sets value_default = 1.
    let mut found = false;
    for m in &plan.members {
        if let PlanMember::PartialDefault { params, bindings, field_order } = m {
            assert_eq!(vec![s("value")], params.clone());
            assert_eq!(vec![(s("value_default"), s("1"))], bindings_of(bindings));
            assert_eq!(vec![s("value"), s("value_default")], field_order.clone());
            found = true;
        }
    }
    assert!(found);
    assert!(has_member(&plan, &PlanMember::MapWith { field: s("value") }));
    assert!(has_member(&plan, &PlanMember::DoWith { field: s("value_default") }));

    // #[dstruct(default, const)] struct SelfReference { val1 = "val2 + 1", val2 = 10 (seq = -1) }
    let selfref = decl(
        "SelfReference",
        vec![flag("default", 1), flag("const", 2)],
        vec![
            field("val1", vec![kv_str("default", "val2 + 1", 3)]),
            field("val2", vec![kv_str("default", "10", 4), kv_int("seq", -1, 5)]),
        ],
    );
    let content = RichStructContent::from_syntax(selfref).unwrap();
    let plan = content.to_impl().unwrap();
    // val2 moves before val1, so val1's default may read val2: the result is
    // val1 = 11, val2 = 10.
    assert_eq!(vec![s("val2"), s("val1")], plan.field_order);
    assert_eq!(vec![(s("val2"), s("10")), (s("val1"), s("val2 + 1"))], runtime_bindings(&plan));
    assert_eq!(runtime_bindings(&plan), const_bindings(&plan));

    // #[dstruct(debug)] struct Debuggable { val1, val2 (no_debug) }
    // printing gives "Debuggable { val1: 10 }": val2 stays invisible.
    let dbg = decl(
        "Debuggable",
        vec![flag("debug", 1)],
        vec![field("val1", vec![]), field("val2", vec![flag("no_debug", 2)])],
    );
    let content = RichStructContent::from_syntax(dbg).unwrap();
    let plan = content.to_impl().unwrap();
    assert!(has_member(
        &plan,
        &PlanMember::DebugImpl { name: s("Debuggable"), fields: vec![s("val1")] }
    ));

    // #[dstruct(cmp(peq, eq, pord, ord))] struct PartlyEq {
    //     can_eq (cmp(ord = true, pord = true)), do_not_check_eq (cmp(eq = false)) }
    let partly = decl(
        "PartlyEq",
        vec![group("cmp", vec![flag("peq", 2), flag("eq", 3), flag("pord", 4), flag("ord", 5)], 1)],
        vec![
            field(
                "can_eq",
                vec![group("cmp", vec![kv_bool("ord", true, 7), kv_bool("pord", true, 8)], 6)],
            ),
            field("do_not_check_eq", vec![group("cmp", vec![kv_bool("eq", false, 10)], 9)]),
        ],
    );
    let content = RichStructContent::from_syntax(partly).unwrap();
    let plan = content.to_impl().unwrap();
    // {10, 5} == {10, 0}: only can_eq is compared; {10, 5} != {3, 5}.
    assert!(has_member(&plan, &PlanMember::PartialEqImpl { fields: vec![s("can_eq")] }));
    assert!(has_member(&plan, &PlanMember::EqImpl));
    assert!(has_member(&plan, &PlanMember::OrdImpl { chain: vec![s("can_eq")] }));
    // can_eq ranks the partial ordering itself, so an independent chain is
    // generated rather than the shortcut through the total ordering.
    assert!(has_member(&plan, &PlanMember::PartialOrdImpl { chain: vec![s("can_eq")] }));
    assert!(!has_member(&plan, &PlanMember::PartialOrdViaOrd));
}

#[test]
fn test_adv() {
    // #[dstruct(debug)] struct Person { age, name, private_key (no_debug) }
    // printing a Person { age: 22, name: "James", private_key: 42 } shows
    // age and name and keeps the key out of the output.
    let person = decl(
        "Person",
        vec![flag("debug", 1)],
        vec![
            field("age", vec![]),
            field("name", vec![]),
            field("private_key", vec![flag("no_debug", 2)]),
        ],
    );
    let content = RichStructContent::from_syntax(person).unwrap();
    let plan = content.to_impl().unwrap();
    assert!(has_member(
        &plan,
        &PlanMember::DebugImpl { name: s("Person"), fields: vec![s("age"), s("name")] }
    ));
    println!("{:#?}", plan);
}

#[test]
fn test_seq_stable_order() {
    // Explicit ranks {-1, 0} on fields declared [a(seq = 0), b(seq = -1)]
    // resolve to construction order [b, a].
    let d = decl(
        "Ranked",
        vec![],
        vec![
            field("a", vec![kv_int("seq", 0, 1)]),
            field("b", vec![kv_int("seq", -1, 2)]),
        ],
    );
    let content = RichStructContent::from_syntax(d).unwrap();
    let plan = content.to_impl().unwrap();
    assert_eq!(vec![s("b"), s("a")], plan.field_order);

    // Fields sharing one rank keep their declaration order.
    let d = decl(
        "Tied",
        vec![],
        vec![
            field("x", vec![kv_int("seq", 0, 1)]),
            field("y", vec![kv_int("seq", 0, 2)]),
            field("z", vec![]),
        ],
    );
    let content = RichStructContent::from_syntax(d).unwrap();
    let plan = content.to_impl().unwrap();
    assert_eq!(vec![s("x"), s("y"), s("z")], plan.field_order);
}

#[test]
fn test_ord_rank_chain() {
    // Ranks {a: 1, b: 0} chain as b.cmp(other.b).then(a.cmp(other.a)).
    let d = decl(
        "Chained",
        vec![group("cmp", vec![flag("ord", 2)], 1)],
        vec![
            field("a", vec![group("cmp", vec![kv_int("ord", 1, 4)], 3)]),
            field("b", vec![group("cmp", vec![kv_int("ord", 0, 6)], 5)]),
        ],
    );
    let content = RichStructContent::from_syntax(d).unwrap();
    let plan = content.to_impl().unwrap();
    assert!(has_member(&plan, &PlanMember::OrdImpl { chain: vec![s("b"), s("a")] }));

    // Requesting an ordering with zero ranked fields fails.
    let d = decl(
        "Unrankable",
        vec![group("cmp", vec![flag("ord", 2)], 1)],
        vec![field("a", vec![]), field("b", vec![])],
    );
    let content = RichStructContent::from_syntax(d).unwrap();
    let e = content.to_impl().unwrap_err();
    assert_eq!(1, e.diags.len());
    assert_eq!(DiagKind::NoOrderableFieldError, e.diags[0].kind);
}

#[test]
fn test_pord_follows_ord() {
    // Both orderings requested, no field ranks the partial one: the partial
    // ordering is generated as the total ordering's result, present for
    // every pair, instead of an independent chain.
    let d = decl(
        "Follower",
        vec![group("cmp", vec![flag("ord", 2), flag("pord", 3)], 1)],
        vec![field("a", vec![group("cmp", vec![flag("ord", 5)], 4)])],
    );
    let content = RichStructContent::from_syntax(d).unwrap();
    let plan = content.to_impl().unwrap();
    assert!(has_member(&plan, &PlanMember::PartialOrdViaOrd));
    assert!(has_member(&plan, &PlanMember::OrdImpl { chain: vec![s("a")] }));
    for m in &plan.members {
        assert!(!matches!(m, PlanMember::PartialOrdImpl { .. }));
    }
}

#[test]
fn test_duplicate_option_last_wins() {
    // `no_debug` and then two `cmp(eq = ...)` declarations with differing
    // values: the later declaration's value stands in the resolved policy.
    let entries = vec![
        flag("no_debug", 1),
        group("cmp", vec![kv_bool("eq", false, 3)], 2),
        group("cmp", vec![kv_bool("eq", true, 5)], 4),
    ];
    let cfg = FieldConfig::from_attribute(&entries, SetterType::No, GetterType::No).unwrap();
    assert!(cfg.no_debug);
    assert!(cfg.cmp.eq);

    let entries = vec![
        flag("no_debug", 1),
        group("cmp", vec![kv_bool("eq", true, 3)], 2),
        group("cmp", vec![kv_bool("eq", false, 5)], 4),
    ];
    let cfg = FieldConfig::from_attribute(&entries, SetterType::No, GetterType::No).unwrap();
    assert!(!cfg.cmp.eq);

    // The same for a plain option repeated.
    let entries = vec![kv_int("seq", 3, 1), kv_int("seq", 7, 2)];
    let cfg = FieldConfig::from_attribute(&entries, SetterType::No, GetterType::No).unwrap();
    assert_eq!(Some(7), cfg.init_seq);
}

#[test]
fn test_partial_params_follow_resolved_order() {
    // When explicit ranks reorder the fields, the partial constructor's
    // parameters follow the resolved order, not the declaration order.
    let d = decl(
        "Reordered",
        vec![flag("partial", 1)],
        vec![
            field("p", vec![]),
            field("q", vec![kv_int("seq", -1, 2)]),
            field("r", vec![kv_str("default", "0", 3)]),
        ],
    );
    let content = RichStructContent::from_syntax(d).unwrap();
    let plan = content.to_impl().unwrap();
    for m in &plan.members {
        if let PlanMember::PartialDefault { params, bindings, field_order } = m {
            assert_eq!(vec![s("q"), s("p")], params.clone());
            assert_eq!(vec![(s("r"), s("0"))], bindings_of(bindings));
            assert_eq!(vec![s("q"), s("p"), s("r")], field_order.clone());
            return;
        }
    }
    panic!("no partial constructor member");
}

#[test]
fn test_three_default_modes_agree() {
    // With every field defaulted and all three modes requested, the
    // runtime, constant and standard defaults construct identical
    // field-by-field values.
    let d = decl(
        "Threefold",
        vec![flag("default", 1), flag("const", 2), flag("std_default", 3)],
        vec![
            field("a", vec![kv_str("default", "1 + 1", 4)]),
            field("b", vec![kv_str("default", "a", 5)]),
        ],
    );
    let content = RichStructContent::from_syntax(d).unwrap();
    let plan = content.to_impl().unwrap();
    let mut std_bindings: Option<Vec<(String, String)>> = None;
    for m in &plan.members {
        if let PlanMember::StdDefault { bindings } = m {
            std_bindings = Some(bindings_of(bindings));
        }
    }
    let expected = vec![(s("a"), s("1 + 1")), (s("b"), s("a"))];
    assert_eq!(expected, runtime_bindings(&plan));
    assert_eq!(expected, const_bindings(&plan));
    assert_eq!(Some(expected), std_bindings);
}

#[test]
fn test_rank_extremes() {
    // A rank string at the word's very edge still parses; one past it is a
    // value error.
    let (cfg, diags) = FieldCmpConfig::from_meta(&vec![
        kv_str("ord", "9223372036854775807", 1),
        kv_str("pord", "-9223372036854775808", 2),
    ]);
    assert!(diags.is_empty());
    assert_eq!(Some(i64::MAX), cfg.ord);
    assert_eq!(Some(i64::MIN), cfg.partial_ord);

    let (cfg, diags) = FieldCmpConfig::from_meta(&vec![
        kv_str("ord", "9223372036854775808", 3),
    ]);
    assert_eq!(1, diags.len());
    assert_eq!(DiagKind::ConfigValueError, diags[0].kind);
    assert_eq!(None, cfg.ord);
}

#[test]
fn test_conflicting_default_modes() {
    // `default` and `partial` together are rejected.
    let d = decl(
        "Conflicted",
        vec![flag("default", 1), flag("partial", 2)],
        vec![field("value", vec![kv_str("default", "10", 3)])],
    );
    let e = RichStructContent::from_syntax(d).unwrap_err();
    assert_eq!(1, e.diags.len());
    assert_eq!(DiagKind::ConflictingDefaultModeError, e.diags[0].kind);
    assert_eq!(0, e.diags[0].span);

    // `const` together with `partial` conflicts just the same.
    let d = decl(
        "Conflicted2",
        vec![flag("const", 1), flag("partial", 2)],
        vec![field("value", vec![kv_str("default", "10", 3)])],
    );
    assert!(RichStructContent::from_syntax(d).is_err());
}
