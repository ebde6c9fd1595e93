//! Structure policy resolution: the structure-level attribute entries,
//! folded into the structure's configuration, with its validation.

use vstd::prelude::*;

use crate::cmp::{struct_cmp_group_spec, StructCmpConfig};
use crate::field_config::{GetterType, SetterType};
use crate::meta::{AttrEntry, LitVal};
use crate::ops::{struct_ops_group_spec, StructOpsConfig};
use crate::synerr::{pass_outcome, CompoundError, Diag, DiagKind};
use crate::text::name_is;

verus! {

/// The structure's fully resolved policy.
#[derive(Debug, Clone, Copy, PartialEq, Eq)]
pub struct StructConfig {
    /// Generate the library's runtime default constructor.
    pub generate_default: bool,
    /// Generate the compile-time constant default.
    pub const_default: bool,
    /// Generate the standard default implementation.
    pub impl_std_default: bool,
    /// Generate the partial constructor for the fields without defaults.
    pub partial_default: bool,
    /// Generate a debug formatter that honours each field's visibility.
    pub manual_debug: bool,
    /// The accessor mode fields fall back to.
    pub override_auto_get: GetterType,
    /// The mutator mode fields fall back to.
    pub override_auto_set: SetterType,
    pub cmp: StructCmpConfig,
    pub ops: StructOpsConfig,
}

impl StructConfig {
    /// The policy before any entry is read: nothing generated, no accessors
    /// or mutators by default.
    pub open spec fn spec_initial() -> Self {
        StructConfig {
            generate_default: false,
            const_default: false,
            impl_std_default: false,
            partial_default: false,
            manual_debug: false,
            override_auto_get: GetterType::No,
            override_auto_set: SetterType::No,
            cmp: StructCmpConfig::spec_default(),
            ops: StructOpsConfig::spec_default(),
        }
    }

    /// A full default mode and the partial constructor are requested
    /// together; the partial constructor would be meaningless.
    pub open spec fn spec_conflicting(self) -> bool {
        (self.generate_default || self.const_default || self.impl_std_default)
            && self.partial_default
    }
}

/// One step of structure policy resolution.  Every recognized option updates
/// the policy, later occurrences override earlier ones, unknown names are
/// passed over, and every malformed option is reported without stopping the
/// walk.
pub open spec fn struct_config_step(acc: (StructConfig, Seq<Diag>), e: AttrEntry) -> (
    StructConfig,
    Seq<Diag>,
) {
    match e {
        AttrEntry::Flag { name, span } => {
            if name@ == "default"@ {
                (StructConfig { generate_default: true, ..acc.0 }, acc.1)
            } else if name@ == "const"@ {
                (StructConfig { const_default: true, ..acc.0 }, acc.1)
            } else if name@ == "std_default"@ {
                (StructConfig { impl_std_default: true, ..acc.0 }, acc.1)
            } else if name@ == "debug"@ {
                (StructConfig { manual_debug: true, ..acc.0 }, acc.1)
            } else if name@ == "partial"@ {
                (StructConfig { partial_default: true, ..acc.0 }, acc.1)
            } else if name@ == "set"@ {
                (StructConfig { override_auto_set: SetterType::Full, ..acc.0 }, acc.1)
            } else if name@ == "get"@ {
                (StructConfig { override_auto_get: GetterType::GetOnly, ..acc.0 }, acc.1)
            } else if name@ == "cmp"@ || name@ == "ops"@ {
                (acc.0, acc.1 + seq![Diag { kind: DiagKind::ConfigShapeError, span }])
            } else {
                acc
            }
        },
        AttrEntry::KeyValue { name, value, span } => {
            if name@ == "default"@ {
                match value {
                    LitVal::Bool(b) => (StructConfig { generate_default: b, ..acc.0 }, acc.1),
                    _ => (acc.0, acc.1 + seq![Diag { kind: DiagKind::ConfigShapeError, span }]),
                }
            } else if name@ == "const"@ {
                match value {
                    LitVal::Bool(b) => (StructConfig { const_default: b, ..acc.0 }, acc.1),
                    _ => (acc.0, acc.1 + seq![Diag { kind: DiagKind::ConfigShapeError, span }]),
                }
            } else if name@ == "std_default"@ {
                match value {
                    LitVal::Bool(b) => (StructConfig { impl_std_default: b, ..acc.0 }, acc.1),
                    _ => (acc.0, acc.1 + seq![Diag { kind: DiagKind::ConfigShapeError, span }]),
                }
            } else if name@ == "debug"@ {
                match value {
                    LitVal::Bool(b) => (StructConfig { manual_debug: b, ..acc.0 }, acc.1),
                    _ => (acc.0, acc.1 + seq![Diag { kind: DiagKind::ConfigShapeError, span }]),
                }
            } else if name@ == "partial"@ {
                match value {
                    LitVal::Bool(b) => (StructConfig { partial_default: b, ..acc.0 }, acc.1),
                    _ => (acc.0, acc.1 + seq![Diag { kind: DiagKind::ConfigShapeError, span }]),
                }
            } else if name@ == "set"@ {
                match value {
                    LitVal::Str(s) => match SetterType::spec_from_str(s@) {
                        Some(g) => (StructConfig { override_auto_set: g, ..acc.0 }, acc.1),
                        None => (
                            acc.0,
                            acc.1 + seq![Diag { kind: DiagKind::ConfigValueError, span }],
                        ),
                    },
                    _ => (acc.0, acc.1 + seq![Diag { kind: DiagKind::ConfigShapeError, span }]),
                }
            } else if name@ == "get"@ {
                match value {
                    LitVal::Str(s) => match GetterType::spec_from_str(s@) {
                        Some(g) => (StructConfig { override_auto_get: g, ..acc.0 }, acc.1),
                        None => (
                            acc.0,
                            acc.1 + seq![Diag { kind: DiagKind::ConfigValueError, span }],
                        ),
                    },
                    _ => (acc.0, acc.1 + seq![Diag { kind: DiagKind::ConfigShapeError, span }]),
                }
            } else if name@ == "cmp"@ || name@ == "ops"@ {
                (acc.0, acc.1 + seq![Diag { kind: DiagKind::ConfigShapeError, span }])
            } else {
                acc
            }
        },
        AttrEntry::Group { name, entries, span } => {
            if name@ == "cmp"@ {
                let sub = struct_cmp_group_spec(acc.0.cmp, entries@);
                (StructConfig { cmp: sub.0, ..acc.0 }, acc.1 + sub.1)
            } else if name@ == "ops"@ {
                let sub = struct_ops_group_spec(entries@);
                (StructConfig { ops: acc.0.ops.spec_mut_and(sub.0), ..acc.0 }, acc.1 + sub.1)
            } else if name@ == "default"@ || name@ == "const"@ || name@ == "std_default"@ || name@
                == "debug"@ || name@ == "partial"@ || name@ == "set"@ || name@ == "get"@ {
                (acc.0, acc.1 + seq![Diag { kind: DiagKind::ConfigShapeError, span }])
            } else {
                acc
            }
        },
        AttrEntry::Literal { .. } => acc,
        AttrEntry::Opaque { .. } => acc,
    }
}

/// The structure's attribute entries folded left to right.
pub open spec fn struct_config_fold(entries: Seq<AttrEntry>, acc: (StructConfig, Seq<Diag>)) -> (
    StructConfig,
    Seq<Diag>,
)
    decreases entries.len(),
{
    if entries.len() == 0 {
        acc
    } else {
        struct_config_fold(entries.drop_first(), struct_config_step(acc, entries.first()))
    }
}

/// What the structure's whole attribute list resolves to, validation
/// included: the fold of every entry, and a conflict diagnostic at the
/// structure's own position when a full default mode meets the partial
/// constructor.
pub open spec fn struct_config_spec(entries: Seq<AttrEntry>, parent_span: u64) -> (
    StructConfig,
    Seq<Diag>,
) {
    let folded = struct_config_fold(entries, (StructConfig::spec_initial(), Seq::empty()));
    if folded.0.spec_conflicting() {
        (
            folded.0,
            folded.1 + seq![
                Diag { kind: DiagKind::ConflictingDefaultModeError, span: parent_span },
            ],
        )
    } else {
        folded
    }
}

/// Requesting a full default mode together with the partial constructor
/// always fails: whenever the resolved flags hold both, the resolution
/// carries the conflict diagnostic, at the structure's own position, as its
/// last entry, so no policy is returned for such a declaration.
pub proof fn lemma_conflicting_default_modes(entries: Seq<AttrEntry>, parent_span: u64)
    ensures
        ({
            let out = struct_config_spec(entries, parent_span);
            out.0.spec_conflicting() ==> out.1.len() > 0 && out.1.last() == Diag {
                kind: DiagKind::ConflictingDefaultModeError,
                span: parent_span,
            }
        }),
{
}

proof fn lemma_struct_config_fold_step(
    entries: Seq<AttrEntry>,
    acc: (StructConfig, Seq<Diag>),
    i: int,
)
    requires
        0 <= i < entries.len(),
    ensures
        struct_config_fold(entries.skip(i), acc) == struct_config_fold(
            entries.skip(i + 1),
            struct_config_step(acc, entries[i]),
        ),
{
    assert(entries.skip(i).first() == entries[i]);
    assert(entries.skip(i).drop_first() =~= entries.skip(i + 1));
}

impl StructConfig {
    /// Resolves the structure's attribute entries, all its option lists
    /// already concatenated in declaration order, into its policy.  Later
    /// occurrences of an option override earlier ones; asking for a full
    /// default mode together with the partial constructor is a conflict.
    /// The resolved policy comes back only if nothing failed, else every
    /// failure comes back together.
    #[verifier::rlimit(100)]
    pub fn from_attribute(entries: &Vec<AttrEntry>, parent_span: u64) -> (r: Result<
        StructConfig,
        CompoundError,
    >)
        ensures
            ({
                let out = struct_config_spec(entries@, parent_span);
                match r {
                    Ok(cfg) => out.1.len() == 0 && cfg == out.0,
                    Err(e) => out.1.len() > 0 && e.wf() && e.diags@ == out.1,
                }
            }),
    {
        let (cfg, diags) = StructConfig::resolve(entries, parent_span);
        pass_outcome(cfg, diags)
    }

    /// The resolution pass itself: the resolved policy and every diagnostic
    /// gathered on the way, the conflict validation included.
    #[verifier::rlimit(100)]
    pub(crate) fn resolve(entries: &Vec<AttrEntry>, parent_span: u64) -> (r: (
        StructConfig,
        Vec<Diag>,
    ))
        ensures
            (r.0, r.1@) == struct_config_spec(entries@, parent_span),
    {
        let mut cfg = StructConfig {
            generate_default: false,
            const_default: false,
            impl_std_default: false,
            partial_default: false,
            manual_debug: false,
            override_auto_get: GetterType::No,
            override_auto_set: SetterType::No,
            cmp: StructCmpConfig::default(),
            ops: StructOpsConfig::default(),
        };
        let mut diags: Vec<Diag> = Vec::new();
        let ghost all = entries@;
        let ghost folded = struct_config_fold(all, (cfg, diags@));
        proof {
            assert(all.skip(0) =~= all);
        }
        let n = entries.len();
        for i in 0..n
            invariant
                n == all.len(),
                all == entries@,
                folded == struct_config_fold(all.skip(i as int), (cfg, diags@)),
                folded == struct_config_fold(
                    entries@,
                    (StructConfig::spec_initial(), Seq::empty()),
                ),
        {
            let ghost acc0 = (cfg, diags@);
            proof {
                lemma_struct_config_fold_step(all, acc0, i as int);
            }
            match &entries[i] {
                AttrEntry::Flag { name, span } => {
                    if name_is(name, "default") {
                        cfg.generate_default = true;
                    } else if name_is(name, "const") {
                        cfg.const_default = true;
                    } else if name_is(name, "std_default") {
                        cfg.impl_std_default = true;
                    } else if name_is(name, "debug") {
                        cfg.manual_debug = true;
                    } else if name_is(name, "partial") {
                        cfg.partial_default = true;
                    } else if name_is(name, "set") {
                        cfg.override_auto_set = SetterType::Full;
                    } else if name_is(name, "get") {
                        cfg.override_auto_get = GetterType::GetOnly;
                    } else if name_is(name, "cmp") || name_is(name, "ops") {
                        diags.push(Diag { kind: DiagKind::ConfigShapeError, span: *span });
                    }
                },
                AttrEntry::KeyValue { name, value, span } => {
                    if name_is(name, "default") {
                        match value {
                            LitVal::Bool(b) => {
                                cfg.generate_default = *b;
                            },
                            _ => {
                                diags.push(Diag { kind: DiagKind::ConfigShapeError, span: *span });
                            },
                        }
                    } else if name_is(name, "const") {
                        match value {
                            LitVal::Bool(b) => {
                                cfg.const_default = *b;
                            },
                            _ => {
                                diags.push(Diag { kind: DiagKind::ConfigShapeError, span: *span });
                            },
                        }
                    } else if name_is(name, "std_default") {
                        match value {
                            LitVal::Bool(b) => {
                                cfg.impl_std_default = *b;
                            },
                            _ => {
                                diags.push(Diag { kind: DiagKind::ConfigShapeError, span: *span });
                            },
                        }
                    } else if name_is(name, "debug") {
                        match value {
                            LitVal::Bool(b) => {
                                cfg.manual_debug = *b;
                            },
                            _ => {
                                diags.push(Diag { kind: DiagKind::ConfigShapeError, span: *span });
                            },
                        }
                    } else if name_is(name, "partial") {
                        match value {
                            LitVal::Bool(b) => {
                                cfg.partial_default = *b;
                            },
                            _ => {
                                diags.push(Diag { kind: DiagKind::ConfigShapeError, span: *span });
                            },
                        }
                    } else if name_is(name, "set") {
                        match value {
                            LitVal::Str(s) => match SetterType::from_str(s.as_str()) {
                                Some(g) => {
                                    cfg.override_auto_set = g;
                                },
                                None => {
                                    diags.push(
                                        Diag { kind: DiagKind::ConfigValueError, span: *span },
                                    );
                                },
                            },
                            _ => {
                                diags.push(Diag { kind: DiagKind::ConfigShapeError, span: *span });
                            },
                        }
                    } else if name_is(name, "get") {
                        match value {
                            LitVal::Str(s) => match GetterType::from_str(s.as_str()) {
                                Some(g) => {
                                    cfg.override_auto_get = g;
                                },
                                None => {
                                    diags.push(
                                        Diag { kind: DiagKind::ConfigValueError, span: *span },
                                    );
                                },
                            },
                            _ => {
                                diags.push(Diag { kind: DiagKind::ConfigShapeError, span: *span });
                            },
                        }
                    } else if name_is(name, "cmp") || name_is(name, "ops") {
                        diags.push(Diag { kind: DiagKind::ConfigShapeError, span: *span });
                    }
                },
                AttrEntry::Group { name, entries: inner, span } => {
                    if name_is(name, "cmp") {
                        let (c, mut ds) = cfg.cmp.apply_group(inner);
                        cfg.cmp = c;
                        diags.append(&mut ds);
                    } else if name_is(name, "ops") {
                        let (c, mut ds) = StructOpsConfig::from_meta(inner);
                        cfg.ops.mut_and(c);
                        diags.append(&mut ds);
                    } else if name_is(name, "default") || name_is(name, "const") || name_is(
                        name,
                        "std_default",
                    ) || name_is(name, "debug") || name_is(name, "partial") || name_is(name, "set")
                        || name_is(name, "get") {
                        diags.push(Diag { kind: DiagKind::ConfigShapeError, span: *span });
                    }
                },
                AttrEntry::Literal { .. } => {},
                AttrEntry::Opaque { .. } => {},
            }
            proof {
                let stepped = struct_config_step(acc0, all[i as int]);
                assert(diags@ =~= stepped.1);
                assert(cfg == stepped.0);
            }
        }
        proof {
            assert(all.skip(n as int) =~= Seq::<AttrEntry>::empty());
        }
        if (cfg.generate_default || cfg.const_default || cfg.impl_std_default)
            && cfg.partial_default {
            diags.push(Diag { kind: DiagKind::ConflictingDefaultModeError, span: parent_span });
            proof {
                assert(diags@ =~= struct_config_spec(entries@, parent_span).1);
            }
        }
        (cfg, diags)
    }
}

} // verus!
