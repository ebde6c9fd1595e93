//! Field policy resolution: one field's attribute entries, folded into its
//! fully resolved configuration.

use vstd::prelude::*;

use crate::cmp::{field_cmp_group_spec, FieldCmpConfig};
use crate::meta::{AttrEntry, LitVal};
use crate::ops::{field_ops_group_spec, FieldOpsConfig};
use crate::synerr::{pass_outcome, CompoundError, Diag, DiagKind};
use crate::text::{check_expr_snippet, name_is, parses_as_expr};

verus! {

/// Which mutators a field gets.
#[derive(Debug, Clone, Copy, PartialEq, Eq, Structural)]
pub enum SetterType {
    /// Both the plain setter and the chaining one.
    Full,
    /// Only the plain setter.
    SetOnly,
    /// Only the chaining setter, which takes and returns the value.
    WithOnly,
    /// No mutator.
    No,
}

impl SetterType {
    /// The mutator mode a value string names.
    pub open spec fn spec_from_str(s: Seq<char>) -> Option<SetterType> {
        if s == "full"@ || s == "all"@ {
            Some(SetterType::Full)
        } else if s == "set"@ {
            Some(SetterType::SetOnly)
        } else if s == "with"@ {
            Some(SetterType::WithOnly)
        } else if s == "no"@ {
            Some(SetterType::No)
        } else {
            None
        }
    }

    /// Reads the mutator mode a value string names.
    pub fn from_str(s: &str) -> (r: Option<SetterType>)
        ensures
            r == SetterType::spec_from_str(s@),
    {
        if crate::text::str_is(s, "full") || crate::text::str_is(s, "all") {
            Some(SetterType::Full)
        } else if crate::text::str_is(s, "set") {
            Some(SetterType::SetOnly)
        } else if crate::text::str_is(s, "with") {
            Some(SetterType::WithOnly)
        } else if crate::text::str_is(s, "no") {
            Some(SetterType::No)
        } else {
            None
        }
    }
}

impl Default for SetterType {
    /// Both mutators.
    fn default() -> (r: Self)
        ensures
            r == SetterType::Full,
    {
        SetterType::Full
    }
}

/// Which accessors a field gets.
#[derive(Debug, Clone, Copy, PartialEq, Eq, Structural)]
pub enum GetterType {
    /// Both the borrowing accessor and the moving one.
    Full,
    /// Only the moving accessor, which hands the value out.
    MoveOnly,
    /// Only the borrowing accessor.
    GetOnly,
    /// No accessor.
    No,
}

impl GetterType {
    /// The accessor mode a value string names.
    pub open spec fn spec_from_str(s: Seq<char>) -> Option<GetterType> {
        if s == "full"@ || s == "all"@ {
            Some(GetterType::Full)
        } else if s == "move"@ {
            Some(GetterType::MoveOnly)
        } else if s == "get"@ {
            Some(GetterType::GetOnly)
        } else if s == "no"@ {
            Some(GetterType::No)
        } else {
            None
        }
    }

    /// Reads the accessor mode a value string names.
    pub fn from_str(s: &str) -> (r: Option<GetterType>)
        ensures
            r == GetterType::spec_from_str(s@),
    {
        if crate::text::str_is(s, "full") || crate::text::str_is(s, "all") {
            Some(GetterType::Full)
        } else if crate::text::str_is(s, "move") {
            Some(GetterType::MoveOnly)
        } else if crate::text::str_is(s, "get") {
            Some(GetterType::GetOnly)
        } else if crate::text::str_is(s, "no") {
            Some(GetterType::No)
        } else {
            None
        }
    }
}

impl Default for GetterType {
    /// Only the borrowing accessor.
    fn default() -> (r: Self)
        ensures
            r == GetterType::GetOnly,
    {
        GetterType::GetOnly
    }
}

/// One field's fully resolved policy.
#[derive(Debug, PartialEq, Eq)]
pub struct FieldConfig {
    /// The field's default expression, as an opaque host-language snippet.
    pub default_value: Option<String>,
    /// The field's explicit construction rank, if it set one.
    pub init_seq: Option<i64>,
    pub auto_set: SetterType,
    pub auto_get: GetterType,
    pub no_debug: bool,
    /// Whether a helper running a closure on a borrowed field is generated.
    pub do_with: bool,
    /// Whether a helper mapping the field through a closure is generated.
    pub mappable: bool,
    pub cmp: FieldCmpConfig,
    pub ops: FieldOpsConfig,
}

impl FieldConfig {
    /// The policy before any entry is read, seeded with the structure's
    /// accessor and mutator defaults.
    pub open spec fn spec_initial(default_set: SetterType, default_get: GetterType) -> Self {
        FieldConfig {
            default_value: None,
            init_seq: None,
            auto_set: default_set,
            auto_get: default_get,
            no_debug: false,
            do_with: false,
            mappable: false,
            cmp: FieldCmpConfig::spec_default(),
            ops: FieldOpsConfig::spec_default(),
        }
    }
}

/// One step of field policy resolution.  Every recognized option updates the
/// policy; later occurrences override earlier ones; unknown names are passed
/// over; every malformed option is reported without stopping the walk.
pub open spec fn field_config_step(acc: (FieldConfig, Seq<Diag>), e: AttrEntry) -> (
    FieldConfig,
    Seq<Diag>,
) {
    match e {
        AttrEntry::Flag { name, span } => {
            if name@ == "default"@ || name@ == "seq"@ || name@ == "sequence"@ {
                (acc.0, acc.1 + seq![Diag { kind: DiagKind::ConfigShapeError, span }])
            } else if name@ == "get"@ {
                (FieldConfig { auto_get: GetterType::GetOnly, ..acc.0 }, acc.1)
            } else if name@ == "set"@ {
                (FieldConfig { auto_set: SetterType::Full, ..acc.0 }, acc.1)
            } else if name@ == "do_with"@ {
                (FieldConfig { do_with: true, ..acc.0 }, acc.1)
            } else if name@ == "map"@ {
                (FieldConfig { mappable: true, ..acc.0 }, acc.1)
            } else if name@ == "no_debug"@ {
                (FieldConfig { no_debug: true, ..acc.0 }, acc.1)
            } else if name@ == "cmp"@ || name@ == "ops"@ {
                (acc.0, acc.1 + seq![Diag { kind: DiagKind::ConfigShapeError, span }])
            } else {
                acc
            }
        },
        AttrEntry::KeyValue { name, value, span } => {
            if name@ == "default"@ {
                match value {
                    LitVal::Str(s) => if s@.len() == 0 {
                        (acc.0, acc.1 + seq![Diag { kind: DiagKind::ConfigValueError, span }])
                    } else if !parses_as_expr(s@) {
                        (acc.0, acc.1 + seq![Diag { kind: DiagKind::ConfigValueError, span }])
                    } else {
                        (FieldConfig { default_value: Some(s), ..acc.0 }, acc.1)
                    },
                    _ => (acc.0, acc.1 + seq![Diag { kind: DiagKind::ConfigShapeError, span }]),
                }
            } else if name@ == "seq"@ || name@ == "sequence"@ {
                match value {
                    LitVal::Int(k) => (FieldConfig { init_seq: Some(k), ..acc.0 }, acc.1),
                    _ => (acc.0, acc.1 + seq![Diag { kind: DiagKind::ConfigValueError, span }]),
                }
            } else if name@ == "get"@ {
                match value {
                    LitVal::Str(s) => match GetterType::spec_from_str(s@) {
                        Some(g) => (FieldConfig { auto_get: g, ..acc.0 }, acc.1),
                        None => (
                            acc.0,
                            acc.1 + seq![Diag { kind: DiagKind::ConfigValueError, span }],
                        ),
                    },
                    _ => (acc.0, acc.1 + seq![Diag { kind: DiagKind::ConfigShapeError, span }]),
                }
            } else if name@ == "set"@ {
                match value {
                    LitVal::Str(s) => match SetterType::spec_from_str(s@) {
                        Some(g) => (FieldConfig { auto_set: g, ..acc.0 }, acc.1),
                        None => (
                            acc.0,
                            acc.1 + seq![Diag { kind: DiagKind::ConfigValueError, span }],
                        ),
                    },
                    _ => (acc.0, acc.1 + seq![Diag { kind: DiagKind::ConfigShapeError, span }]),
                }
            } else if name@ == "do_with"@ {
                match value {
                    LitVal::Bool(b) => (FieldConfig { do_with: b, ..acc.0 }, acc.1),
                    _ => (acc.0, acc.1 + seq![Diag { kind: DiagKind::ConfigShapeError, span }]),
                }
            } else if name@ == "map"@ {
                match value {
                    LitVal::Bool(b) => (FieldConfig { mappable: b, ..acc.0 }, acc.1),
                    _ => (acc.0, acc.1 + seq![Diag { kind: DiagKind::ConfigShapeError, span }]),
                }
            } else if name@ == "no_debug"@ {
                match value {
                    LitVal::Bool(b) => (FieldConfig { no_debug: b, ..acc.0 }, acc.1),
                    _ => (acc.0, acc.1 + seq![Diag { kind: DiagKind::ConfigShapeError, span }]),
                }
            } else if name@ == "cmp"@ || name@ == "ops"@ {
                (acc.0, acc.1 + seq![Diag { kind: DiagKind::ConfigShapeError, span }])
            } else {
                acc
            }
        },
        AttrEntry::Group { name, entries, span } => {
            if name@ == "cmp"@ {
                let sub = field_cmp_group_spec(entries@);
                (FieldConfig { cmp: sub.0, ..acc.0 }, acc.1 + sub.1)
            } else if name@ == "ops"@ {
                let sub = field_ops_group_spec(entries@);
                (FieldConfig { ops: sub.0, ..acc.0 }, acc.1 + sub.1)
            } else if name@ == "default"@ || name@ == "seq"@ || name@ == "sequence"@ || name@
                == "get"@ || name@ == "set"@ || name@ == "do_with"@ || name@ == "map"@ || name@
                == "no_debug"@ {
                (acc.0, acc.1 + seq![Diag { kind: DiagKind::ConfigShapeError, span }])
            } else {
                acc
            }
        },
        AttrEntry::Literal { .. } => acc,
        AttrEntry::Opaque { .. } => acc,
    }
}

/// A field's attribute entries folded left to right.
pub open spec fn field_config_fold(entries: Seq<AttrEntry>, acc: (FieldConfig, Seq<Diag>)) -> (
    FieldConfig,
    Seq<Diag>,
)
    decreases entries.len(),
{
    if entries.len() == 0 {
        acc
    } else {
        field_config_fold(entries.drop_first(), field_config_step(acc, entries.first()))
    }
}

/// What a field's whole attribute list resolves to, with the structure's
/// accessor and mutator defaults seeded in.
pub open spec fn field_config_spec(
    entries: Seq<AttrEntry>,
    default_set: SetterType,
    default_get: GetterType,
) -> (FieldConfig, Seq<Diag>) {
    field_config_fold(entries, (FieldConfig::spec_initial(default_set, default_get), Seq::empty()))
}

/// Every nested group is small enough for positional ranks to fit the
/// machine's signed word.
pub open spec fn groups_fit(entries: Seq<AttrEntry>) -> bool {
    forall|i: int| 0 <= i < entries.len() ==> match #[trigger] entries[i] {
        AttrEntry::Group { entries: inner, .. } => inner@.len() <= i64::MAX,
        _ => true,
    }
}

proof fn lemma_field_config_fold_step(entries: Seq<AttrEntry>, acc: (FieldConfig, Seq<Diag>), i: int)
    requires
        0 <= i < entries.len(),
    ensures
        field_config_fold(entries.skip(i), acc) == field_config_fold(
            entries.skip(i + 1),
            field_config_step(acc, entries[i]),
        ),
{
    assert(entries.skip(i).first() == entries[i]);
    assert(entries.skip(i).drop_first() =~= entries.skip(i + 1));
}

impl FieldConfig {
    /// Resolves one field's attribute entries, all its option lists already
    /// concatenated in declaration order, into its policy.  Later
    /// occurrences of an option override earlier ones; the resolved policy
    /// comes back only if no entry failed, else every failure comes back
    /// together.
    pub fn from_attribute(
        entries: &Vec<AttrEntry>,
        default_set: SetterType,
        default_get: GetterType,
    ) -> (r: Result<FieldConfig, CompoundError>)
        requires
            groups_fit(entries@),
        ensures
            ({
                let out = field_config_spec(entries@, default_set, default_get);
                match r {
                    Ok(cfg) => out.1.len() == 0 && cfg == out.0,
                    Err(e) => out.1.len() > 0 && e.wf() && e.diags@ == out.1,
                }
            }),
    {
        let (cfg, diags) = FieldConfig::resolve(entries, default_set, default_get);
        pass_outcome(cfg, diags)
    }

    /// The resolution pass itself: the resolved policy and every diagnostic
    /// gathered on the way.
    pub(crate) fn resolve(
        entries: &Vec<AttrEntry>,
        default_set: SetterType,
        default_get: GetterType,
    ) -> (r: (FieldConfig, Vec<Diag>))
        requires
            groups_fit(entries@),
        ensures
            (r.0, r.1@) == field_config_spec(entries@, default_set, default_get),
    {
        let mut cfg = FieldConfig {
            default_value: None,
            init_seq: None,
            auto_set: default_set,
            auto_get: default_get,
            no_debug: false,
            do_with: false,
            mappable: false,
            cmp: FieldCmpConfig::default(),
            ops: FieldOpsConfig::default(),
        };
        let mut diags: Vec<Diag> = Vec::new();
        let ghost all = entries@;
        let ghost goal = field_config_fold(all, (cfg, diags@));
        proof {
            assert(all.skip(0) =~= all);
        }
        let n = entries.len();
        for i in 0..n
            invariant
                n == all.len(),
                all == entries@,
                groups_fit(all),
                goal == field_config_fold(all.skip(i as int), (cfg, diags@)),
                goal == field_config_spec(entries@, default_set, default_get),
        {
            let ghost acc0 = (cfg, diags@);
            proof {
                lemma_field_config_fold_step(all, acc0, i as int);
            }
            match &entries[i] {
                AttrEntry::Flag { name, span } => {
                    if name_is(name, "default") || name_is(name, "seq") || name_is(
                        name,
                        "sequence",
                    ) {
                        diags.push(Diag { kind: DiagKind::ConfigShapeError, span: *span });
                    } else if name_is(name, "get") {
                        cfg.auto_get = GetterType::GetOnly;
                    } else if name_is(name, "set") {
                        cfg.auto_set = SetterType::Full;
                    } else if name_is(name, "do_with") {
                        cfg.do_with = true;
                    } else if name_is(name, "map") {
                        cfg.mappable = true;
                    } else if name_is(name, "no_debug") {
                        cfg.no_debug = true;
                    } else if name_is(name, "cmp") || name_is(name, "ops") {
                        diags.push(Diag { kind: DiagKind::ConfigShapeError, span: *span });
                    }
                },
                AttrEntry::KeyValue { name, value, span } => {
                    if name_is(name, "default") {
                        match value {
                            LitVal::Str(s) => {
                                if s.as_str().unicode_len() == 0 {
                                    diags.push(
                                        Diag { kind: DiagKind::ConfigValueError, span: *span },
                                    );
                                } else if !check_expr_snippet(s.as_str()) {
                                    diags.push(
                                        Diag { kind: DiagKind::ConfigValueError, span: *span },
                                    );
                                } else {
                                    cfg.default_value = Some(s.clone());
                                }
                            },
                            _ => {
                                diags.push(Diag { kind: DiagKind::ConfigShapeError, span: *span });
                            },
                        }
                    } else if name_is(name, "seq") || name_is(name, "sequence") {
                        match value {
                            LitVal::Int(k) => {
                                cfg.init_seq = Some(*k);
                            },
                            _ => {
                                diags.push(Diag { kind: DiagKind::ConfigValueError, span: *span });
                            },
                        }
                    } else if name_is(name, "get") {
                        match value {
                            LitVal::Str(s) => match GetterType::from_str(s.as_str()) {
                                Some(g) => {
                                    cfg.auto_get = g;
                                },
                                None => {
                                    diags.push(
                                        Diag { kind: DiagKind::ConfigValueError, span: *span },
                                    );
                                },
                            },
                            _ => {
                                diags.push(Diag { kind: DiagKind::ConfigShapeError, span: *span });
                            },
                        }
                    } else if name_is(name, "set") {
                        match value {
                            LitVal::Str(s) => match SetterType::from_str(s.as_str()) {
                                Some(g) => {
                                    cfg.auto_set = g;
                                },
                                None => {
                                    diags.push(
                                        Diag { kind: DiagKind::ConfigValueError, span: *span },
                                    );
                                },
                            },
                            _ => {
                                diags.push(Diag { kind: DiagKind::ConfigShapeError, span: *span });
                            },
                        }
                    } else if name_is(name, "do_with") {
                        match value {
                            LitVal::Bool(b) => {
                                cfg.do_with = *b;
                            },
                            _ => {
                                diags.push(Diag { kind: DiagKind::ConfigShapeError, span: *span });
                            },
                        }
                    } else if name_is(name, "map") {
                        match value {
                            LitVal::Bool(b) => {
                                cfg.mappable = *b;
                            },
                            _ => {
                                diags.push(Diag { kind: DiagKind::ConfigShapeError, span: *span });
                            },
                        }
                    } else if name_is(name, "no_debug") {
                        match value {
                            LitVal::Bool(b) => {
                                cfg.no_debug = *b;
                            },
                            _ => {
                                diags.push(Diag { kind: DiagKind::ConfigShapeError, span: *span });
                            },
                        }
                    } else if name_is(name, "cmp") || name_is(name, "ops") {
                        diags.push(Diag { kind: DiagKind::ConfigShapeError, span: *span });
                    }
                },
                AttrEntry::Group { name, entries: inner, span } => {
                    if name_is(name, "cmp") {
                        let (c, mut ds) = FieldCmpConfig::from_meta(inner);
                        cfg.cmp = c;
                        diags.append(&mut ds);
                    } else if name_is(name, "ops") {
                        let (c, mut ds) = FieldOpsConfig::from_meta(inner);
                        cfg.ops = c;
                        diags.append(&mut ds);
                    } else if name_is(name, "default") || name_is(name, "seq") || name_is(
                        name,
                        "sequence",
                    ) || name_is(name, "get") || name_is(name, "set") || name_is(name, "do_with")
                        || name_is(name, "map") || name_is(name, "no_debug") {
                        diags.push(Diag { kind: DiagKind::ConfigShapeError, span: *span });
                    }
                },
                AttrEntry::Literal { .. } => {},
                AttrEntry::Opaque { .. } => {},
            }
            proof {
                let stepped = field_config_step(acc0, all[i as int]);
                assert(diags@ =~= stepped.1);
                assert(cfg == stepped.0);
            }
        }
        proof {
            assert(all.skip(n as int) =~= Seq::<AttrEntry>::empty());
        }
        (cfg, diags)
    }
}

} // verus!
