use datastruct::generate::{FieldDecl, RichStructContent, StructDecl};
use datastruct::meta::{AttrEntry, LitVal};
use datastruct::ops::OpsType;
use datastruct::plan::{OpTerm, PlanMember, SynthesisPlan};
use datastruct::synerr::DiagKind;

fn flag(name: &str, span: u64) -> AttrEntry {
    AttrEntry::Flag { name: name.to_string(), span }
}

fn kv_str(name: &str, v: &str, span: u64) -> AttrEntry {
    AttrEntry::KeyValue { name: name.to_string(), value: LitVal::Str(v.to_string()), span }
}

fn group(name: &str, entries: Vec<AttrEntry>, span: u64) -> AttrEntry {
    AttrEntry::Group { name: name.to_string(), entries, span }
}

fn field(name: &str, entries: Vec<AttrEntry>) -> FieldDecl {
    FieldDecl { ident: name.to_string(), inline_default: None, entries, span: 0 }
}

fn decl(name: &str, entries: Vec<AttrEntry>, fields: Vec<FieldDecl>) -> StructDecl {
    StructDecl { ident: name.to_string(), entries, fields, span: 0 }
}

fn op_terms(plan: &SynthesisPlan, fam: OpsType, asn: bool) -> Vec<(String, OpTerm)> {
    for m in &plan.members {
        if let PlanMember::OpImpl { family, assign, fields } = m {
            if *family == fam && *assign == asn {
                return fields
                    .iter()
                    .map(|f| {
                        (
                            f.field.clone(),
                            match &f.term {
                                OpTerm::Keep => OpTerm::Keep,
                                OpTerm::Native => OpTerm::Native,
                                OpTerm::Template(t) => OpTerm::Template(t.clone()),
                            },
                        )
                    })
                    .collect();
            }
        }
    }
    panic!("no such arithmetic member");
}

fn has_op_member(plan: &SynthesisPlan, fam: OpsType, asn: bool) -> bool {
    plan.members.iter().any(|m| {
        matches!(m, PlanMember::OpImpl { family, assign, .. } if *family == fam && *assign == asn)
    })
}

fn s(x: &str) -> String {
    x.to_string()
}

#[test]
fn test_ops() {
    // #[dstruct(ops(add, sub, div), cmp(eq, peq))] struct CanOps {
    //     can_add (ops(sub = "ignore")), can_sub (ops(add = "ignore")) }
    let can_ops = decl(
        "CanOps",
        vec![
            group("ops", vec![flag("add", 2), flag("sub", 3), flag("div", 4)], 1),
            group("cmp", vec![flag("eq", 6), flag("peq", 7)], 5),
        ],
        vec![
            field("can_add", vec![group("ops", vec![kv_str("sub", "ignore", 9)], 8)]),
            field("can_sub", vec![group("ops", vec![kv_str("add", "ignore", 11)], 10)]),
        ],
    );
    let content = RichStructContent::from_syntax(can_ops).unwrap();
    let plan = content.to_impl().unwrap();
    // Addition keeps the ignored field and adds the other.
    assert_eq!(
        vec![(s("can_add"), OpTerm::Native), (s("can_sub"), OpTerm::Keep)],
        op_terms(&plan, OpsType::Add, false)
    );
    assert_eq!(
        vec![(s("can_add"), OpTerm::Keep), (s("can_sub"), OpTerm::Native)],
        op_terms(&plan, OpsType::Sub, false)
    );
    assert_eq!(
        vec![(s("can_add"), OpTerm::Native), (s("can_sub"), OpTerm::Native)],
        op_terms(&plan, OpsType::Div, false)
    );
    assert!(!has_op_member(&plan, OpsType::Mul, false));
    assert!(!has_op_member(&plan, OpsType::Add, true));
    // What those terms mean on the scenario's values:
    // {can_add: 0, can_sub: 10} + {can_add: 10, can_sub: 0}
    let (add1, add2) = ((0i8, 10i8), (10i8, 0i8));
    let sum = (add1.0 + add2.0, add1.1);
    assert_eq!((10, 10), sum);
    // add1 - add2 keeps can_add and subtracts can_sub ...
    let diff = (add1.0, add1.1 - add2.1);
    assert_eq!((0, 10), diff);
    // ... and add2 - add1 likewise.
    let diff = (add2.0, add2.1 - add1.1);
    assert_eq!((10, -10), diff);

    // #[dstruct(ops(add = "both"), cmp(eq, peq))] struct CanOpsAssign {
    //     can_add, no_add (ops(add_assign = "ignore")),
    //     max (ops(add_assign = "std::cmp::max($self.max, $rhs.max)")),
    //     min (ops(add_assign = "std::cmp::min($self.min, $rhs.min)")) }
    let can_assign = decl(
        "CanOpsAssign",
        vec![
            group("ops", vec![kv_str("add", "both", 2)], 1),
            group("cmp", vec![flag("eq", 4), flag("peq", 5)], 3),
        ],
        vec![
            field("can_add", vec![]),
            field("no_add", vec![group("ops", vec![kv_str("add_assign", "ignore", 7)], 6)]),
            field(
                "max",
                vec![group(
                    "ops",
                    vec![kv_str("add_assign", "std::cmp::max($self.max, $rhs.max)", 9)],
                    8,
                )],
            ),
            field(
                "min",
                vec![group(
                    "ops",
                    vec![kv_str("add_assign", "std::cmp::min($self.min, $rhs.min)", 11)],
                    10,
                )],
            ),
        ],
    );
    let content = RichStructContent::from_syntax(can_assign).unwrap();
    let plan = content.to_impl().unwrap();
    // The plain form lists every field with the native operator.
    assert_eq!(
        vec![
            (s("can_add"), OpTerm::Native),
            (s("no_add"), OpTerm::Native),
            (s("max"), OpTerm::Native),
            (s("min"), OpTerm::Native),
        ],
        op_terms(&plan, OpsType::Add, false)
    );
    // The in-place form omits the ignored field and substitutes the manual
    // templates' placeholders.
    assert_eq!(
        vec![
            (s("can_add"), OpTerm::Native),
            (s("max"), OpTerm::Template(s("std::cmp::max(self.max, rhs.max)"))),
            (s("min"), OpTerm::Template(s("std::cmp::min(self.min, rhs.min)"))),
        ],
        op_terms(&plan, OpsType::Add, true)
    );
    // What those statements mean on the scenario's values:
    // {20, 10, 15, 10} is {10, 10, 10, 15} += {10, 10, 15, 10}.
    let mut base = (10i8, 10i8, 10i8, 15i8);
    let rhs = (10i8, 10i8, 15i8, 10i8);
    base.0 += rhs.0;
    base.2 = std::cmp::max(base.2, rhs.2);
    base.3 = std::cmp::min(base.3, rhs.3);
    assert_eq!((20, 10, 15, 10), base);
}

#[test]
fn test_bad_template_rejected() {
    // A manual template that does not substitute into a well-formed
    // expression is reported at its field.
    let d = decl(
        "Broken",
        vec![group("ops", vec![kv_str("add", "plain", 2)], 1)],
        vec![field("x", vec![group("ops", vec![kv_str("add", "$self.x +", 4)], 3)])],
    );
    let content = RichStructContent::from_syntax(d).unwrap();
    let e = content.to_impl().unwrap_err();
    assert_eq!(1, e.diags.len());
    assert_eq!(DiagKind::ConfigValueError, e.diags[0].kind);
    assert_eq!(0, e.diags[0].span);
}

#[test]
fn test_assign_only_family() {
    // `sub = "assign"` generates only the in-place form.
    let d = decl(
        "AssignOnly",
        vec![group("ops", vec![kv_str("sub", "assign", 2)], 1)],
        vec![field("x", vec![])],
    );
    let content = RichStructContent::from_syntax(d).unwrap();
    let plan = content.to_impl().unwrap();
    assert!(!has_op_member(&plan, OpsType::Sub, false));
    assert_eq!(vec![(s("x"), OpTerm::Native)], op_terms(&plan, OpsType::Sub, true));
}
