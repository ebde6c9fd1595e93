//! Arithmetic configuration: which operator families a structure requests,
//! in which forms, and what each field contributes to them.

use vstd::prelude::*;

use crate::generate::{RichStructContent, StructFieldContent};
use crate::meta::{collect_meta_map, map_items, AttrEntry, LitVal, MapItem};
use crate::plan::{has_op, member_kinds_unique, same_singleton_kind, FieldOp, OpTerm, PlanMember};
use crate::synerr::{Diag, DiagKind};
use crate::text::{check_expr_snippet, name_is, parses_as_expr, str_is, subst_spec,
    substitute_template};

verus! {

/// The four operator families.
#[derive(Debug, Clone, Copy, PartialEq, Eq, Structural)]
pub enum OpsType {
    Add,
    Sub,
    Mul,
    Div,
}

impl OpsType {
    /// The family a structure-level key names.
    pub open spec fn spec_from_str(s: Seq<char>) -> Option<OpsType> {
        if s == "add"@ {
            Some(OpsType::Add)
        } else if s == "sub"@ {
            Some(OpsType::Sub)
        } else if s == "mul"@ {
            Some(OpsType::Mul)
        } else if s == "div"@ {
            Some(OpsType::Div)
        } else {
            None
        }
    }

    /// Reads the family a structure-level key names.
    pub fn from_str(s: &str) -> (r: Option<OpsType>)
        ensures
            r == OpsType::spec_from_str(s@),
    {
        if str_is(s, "add") {
            Some(OpsType::Add)
        } else if str_is(s, "sub") {
            Some(OpsType::Sub)
        } else if str_is(s, "mul") {
            Some(OpsType::Mul)
        } else if str_is(s, "div") {
            Some(OpsType::Div)
        } else {
            None
        }
    }
}

/// Which forms of a family the structure asks for by default: the plain
/// operator, the in-place operator, or both.
#[derive(Debug, Clone, Copy, PartialEq, Eq, Structural)]
pub enum OpsAssignableType {
    Both,
    Assign,
    Plain,
}

impl OpsAssignableType {
    /// The form a value string names.
    pub open spec fn spec_from_str(s: Seq<char>) -> Option<OpsAssignableType> {
        if s == "both"@ || s == "all"@ {
            Some(OpsAssignableType::Both)
        } else if s == "assign"@ {
            Some(OpsAssignableType::Assign)
        } else if s == "plain"@ || s == "default"@ {
            Some(OpsAssignableType::Plain)
        } else {
            None
        }
    }

    /// Reads the form a value string names.
    pub fn from_str(s: &str) -> (r: Option<OpsAssignableType>)
        ensures
            r == OpsAssignableType::spec_from_str(s@),
    {
        if str_is(s, "both") || str_is(s, "all") {
            Some(OpsAssignableType::Both)
        } else if str_is(s, "assign") {
            Some(OpsAssignableType::Assign)
        } else if str_is(s, "plain") || str_is(s, "default") {
            Some(OpsAssignableType::Plain)
        } else {
            None
        }
    }
}

impl Default for OpsAssignableType {
    /// A family named without a form means the plain operator.
    fn default() -> (r: Self)
        ensures
            r == OpsAssignableType::Plain,
    {
        OpsAssignableType::Plain
    }
}

/// The structure-level arithmetic switches: for each family, whether it is
/// generated and in which forms.
#[derive(Debug, Clone, Copy, PartialEq, Eq)]
pub struct StructOpsConfig {
    pub add: Option<OpsAssignableType>,
    pub sub: Option<OpsAssignableType>,
    pub mul: Option<OpsAssignableType>,
    pub div: Option<OpsAssignableType>,
}

impl StructOpsConfig {
    /// No family generated.
    pub open spec fn spec_default() -> Self {
        StructOpsConfig { add: None, sub: None, mul: None, div: None }
    }

    /// What overriding one configuration with another yields: every family
    /// the other sets wins.
    pub open spec fn spec_mut_and(self, other: Self) -> Self {
        StructOpsConfig {
            add: if other.add is Some {
                other.add
            } else {
                self.add
            },
            sub: if other.sub is Some {
                other.sub
            } else {
                self.sub
            },
            mul: if other.mul is Some {
                other.mul
            } else {
                self.mul
            },
            div: if other.div is Some {
                other.div
            } else {
                self.div
            },
        }
    }

    /// Overrides these switches with another group's: every family the other
    /// group sets wins, the rest keep their value.
    pub fn mut_and(&mut self, other: Self)
        ensures
            *final(self) == old(self).spec_mut_and(other),
    {
        if let Some(v) = other.add {
            self.add = Some(v);
        }
        if let Some(v) = other.sub {
            self.sub = Some(v);
        }
        if let Some(v) = other.mul {
            self.mul = Some(v);
        }
        if let Some(v) = other.div {
            self.div = Some(v);
        }
    }
}

impl Default for StructOpsConfig {
    /// No family generated.
    fn default() -> (r: Self)
        ensures
            r == StructOpsConfig::spec_default(),
    {
        StructOpsConfig { add: None, sub: None, mul: None, div: None }
    }
}

/// What one family's switch becomes under one recognized entry.
pub open spec fn struct_ops_family(
    old_val: Option<OpsAssignableType>,
    v: Option<LitVal>,
) -> Option<Option<OpsAssignableType>> {
    match v {
        None => Some(Some(OpsAssignableType::Plain)),
        Some(LitVal::Str(s)) => match OpsAssignableType::spec_from_str(s@) {
            Some(t) => Some(Some(t)),
            None => None,
        },
        Some(LitVal::Bool(b)) => Some(
            if b {
                Some(OpsAssignableType::Plain)
            } else {
                None
            },
        ),
        Some(_) => None,
    }
}

/// One step of a structure-level `ops(...)` group: an unknown family name is
/// rejected; a recognized one sets, or with `false` clears, its family.
pub open spec fn struct_ops_step(acc: (StructOpsConfig, Seq<Diag>), item: MapItem) -> (
    StructOpsConfig,
    Seq<Diag>,
) {
    let name = item.1@;
    let span = item.3;
    match OpsType::spec_from_str(name) {
        None => (acc.0, acc.1 + seq![Diag { kind: DiagKind::UnknownOptionError, span }]),
        Some(fam) => {
            let old_val = match fam {
                OpsType::Add => acc.0.add,
                OpsType::Sub => acc.0.sub,
                OpsType::Mul => acc.0.mul,
                OpsType::Div => acc.0.div,
            };
            match struct_ops_family(old_val, item.2) {
                None => (
                    acc.0,
                    acc.1 + seq![
                        Diag {
                            kind: match item.2 {
                                Some(LitVal::Str(_)) => DiagKind::ConfigValueError,
                                _ => DiagKind::ConfigShapeError,
                            },
                            span,
                        },
                    ],
                ),
                Some(new_val) => (
                    match fam {
                        OpsType::Add => StructOpsConfig { add: new_val, ..acc.0 },
                        OpsType::Sub => StructOpsConfig { sub: new_val, ..acc.0 },
                        OpsType::Mul => StructOpsConfig { mul: new_val, ..acc.0 },
                        OpsType::Div => StructOpsConfig { div: new_val, ..acc.0 },
                    },
                    acc.1,
                ),
            }
        },
    }
}

/// A structure-level `ops(...)` group folded left to right; a later entry
/// for the same family overrides an earlier one.
pub open spec fn struct_ops_fold(items: Seq<MapItem>, acc: (StructOpsConfig, Seq<Diag>)) -> (
    StructOpsConfig,
    Seq<Diag>,
)
    decreases items.len(),
{
    if items.len() == 0 {
        acc
    } else {
        struct_ops_fold(items.drop_first(), struct_ops_step(acc, items.first()))
    }
}

/// What one structure-level `ops(...)` group resolves to on its own.
pub open spec fn struct_ops_group_spec(entries: Seq<AttrEntry>) -> (StructOpsConfig, Seq<Diag>) {
    struct_ops_fold(map_items(entries), (StructOpsConfig::spec_default(), Seq::empty()))
}

proof fn lemma_struct_ops_fold_step(items: Seq<MapItem>, acc: (StructOpsConfig, Seq<Diag>), i: int)
    requires
        0 <= i < items.len(),
    ensures
        struct_ops_fold(items.skip(i), acc) == struct_ops_fold(
            items.skip(i + 1),
            struct_ops_step(acc, items[i]),
        ),
{
    assert(items.skip(i).first() == items[i]);
    assert(items.skip(i).drop_first() =~= items.skip(i + 1));
}

impl StructOpsConfig {
    /// Resolves one structure-level `ops(...)` group: each family named sets
    /// its switch, later entries for the same family win, and every bad name
    /// or value is reported without stopping the walk.
    pub fn from_meta(entries: &Vec<AttrEntry>) -> (r: (StructOpsConfig, Vec<Diag>))
        ensures
            (r.0, r.1@) == struct_ops_group_spec(entries@),
    {
        let items = collect_meta_map(entries);
        let mut cfg = StructOpsConfig::default();
        let mut diags: Vec<Diag> = Vec::new();
        let ghost all = items@;
        let ghost goal = struct_ops_fold(all, (cfg, diags@));
        proof {
            assert(all.skip(0) =~= all);
        }
        let n = items.len();
        for i in 0..n
            invariant
                n == all.len(),
                all == items@,
                goal == struct_ops_fold(all.skip(i as int), (cfg, diags@)),
                goal == struct_ops_group_spec(entries@),
        {
            let ghost acc0 = (cfg, diags@);
            proof {
                lemma_struct_ops_fold_step(all, acc0, i as int);
            }
            let name = &items[i].1;
            let span = items[i].3;
            match OpsType::from_str(name.as_str()) {
                None => {
                    diags.push(Diag { kind: DiagKind::UnknownOptionError, span });
                },
                Some(fam) => {
                    let outcome: Result<Option<OpsAssignableType>, DiagKind> = match &items[i].2 {
                        None => Ok(Some(OpsAssignableType::Plain)),
                        Some(LitVal::Str(s)) => match OpsAssignableType::from_str(s.as_str()) {
                            Some(t) => Ok(Some(t)),
                            None => Err(DiagKind::ConfigValueError),
                        },
                        Some(LitVal::Bool(b)) => Ok(
                            if *b {
                                Some(OpsAssignableType::Plain)
                            } else {
                                None
                            },
                        ),
                        Some(_) => Err(DiagKind::ConfigShapeError),
                    };
                    match outcome {
                        Ok(new_val) => {
                            match fam {
                                OpsType::Add => {
                                    cfg.add = new_val;
                                },
                                OpsType::Sub => {
                                    cfg.sub = new_val;
                                },
                                OpsType::Mul => {
                                    cfg.mul = new_val;
                                },
                                OpsType::Div => {
                                    cfg.div = new_val;
                                },
                            }
                        },
                        Err(kind) => {
                            diags.push(Diag { kind, span });
                        },
                    }
                },
            }
            proof {
                let stepped = struct_ops_step(acc0, all[i as int]);
                assert(diags@ =~= stepped.1);
                assert(cfg == stepped.0);
            }
        }
        proof {
            assert(all.skip(n as int) =~= Seq::<MapItem>::empty());
        }
        (cfg, diags)
    }
}

/// What one field contributes to one operator form: inherit the family's
/// native operator, keep the left operand's value, or a manual expression
/// template.
#[derive(Debug, PartialEq, Eq)]
pub enum OpsOperationType {
    Manual(String),
    Inherit,
    Ignore,
}

impl OpsOperationType {
    /// What a literal names: the two keywords and booleans select inherit or
    /// ignore; any other string is a manual template; other literals fit no
    /// contribution.
    pub open spec fn spec_from_lit(v: LitVal) -> Option<OpsOperationType> {
        match v {
            LitVal::Str(s) => if s@ == "inherit"@ || s@ == "default"@ {
                Some(OpsOperationType::Inherit)
            } else if s@ == "ignore"@ || s@ == "no"@ {
                Some(OpsOperationType::Ignore)
            } else {
                Some(OpsOperationType::Manual(s))
            },
            LitVal::Bool(b) => Some(
                if b {
                    OpsOperationType::Inherit
                } else {
                    OpsOperationType::Ignore
                },
            ),
            _ => None,
        }
    }

    /// Reads a literal's contribution.
    pub fn from_lit(v: &LitVal) -> (r: Option<OpsOperationType>)
        ensures
            r == OpsOperationType::spec_from_lit(*v),
    {
        match v {
            LitVal::Str(s) => if name_is(s, "inherit") || name_is(s, "default") {
                Some(OpsOperationType::Inherit)
            } else if name_is(s, "ignore") || name_is(s, "no") {
                Some(OpsOperationType::Ignore)
            } else {
                Some(OpsOperationType::Manual(s.clone()))
            },
            LitVal::Bool(b) => Some(
                if *b {
                    OpsOperationType::Inherit
                } else {
                    OpsOperationType::Ignore
                },
            ),
            _ => None,
        }
    }

    /// A structural copy of the contribution.
    pub fn dup(&self) -> (r: Self)
        ensures
            r == *self,
    {
        match self {
            OpsOperationType::Manual(s) => OpsOperationType::Manual(s.clone()),
            OpsOperationType::Inherit => OpsOperationType::Inherit,
            OpsOperationType::Ignore => OpsOperationType::Ignore,
        }
    }
}

/// The eight operator forms a field can configure: each family in its plain
/// and its in-place form.
#[derive(Debug, Clone, Copy, PartialEq, Eq, Structural)]
pub enum OpsSlot {
    Add,
    Sub,
    Mul,
    Div,
    AddAssign,
    SubAssign,
    MulAssign,
    DivAssign,
}

/// The form a field-level key names.
pub open spec fn spec_ops_slot(s: Seq<char>) -> Option<OpsSlot> {
    if s == "add"@ {
        Some(OpsSlot::Add)
    } else if s == "sub"@ {
        Some(OpsSlot::Sub)
    } else if s == "mul"@ {
        Some(OpsSlot::Mul)
    } else if s == "div"@ {
        Some(OpsSlot::Div)
    } else if s == "add_assign"@ {
        Some(OpsSlot::AddAssign)
    } else if s == "sub_assign"@ {
        Some(OpsSlot::SubAssign)
    } else if s == "mul_assign"@ {
        Some(OpsSlot::MulAssign)
    } else if s == "div_assign"@ {
        Some(OpsSlot::DivAssign)
    } else {
        None
    }
}

/// Reads the form a field-level key names.
fn ops_slot_of(name: &String) -> (r: Option<OpsSlot>)
    ensures
        r == spec_ops_slot(name@),
{
    if name_is(name, "add") {
        Some(OpsSlot::Add)
    } else if name_is(name, "sub") {
        Some(OpsSlot::Sub)
    } else if name_is(name, "mul") {
        Some(OpsSlot::Mul)
    } else if name_is(name, "div") {
        Some(OpsSlot::Div)
    } else if name_is(name, "add_assign") {
        Some(OpsSlot::AddAssign)
    } else if name_is(name, "sub_assign") {
        Some(OpsSlot::SubAssign)
    } else if name_is(name, "mul_assign") {
        Some(OpsSlot::MulAssign)
    } else if name_is(name, "div_assign") {
        Some(OpsSlot::DivAssign)
    } else {
        None
    }
}

/// What one field contributes to each of the eight operator forms, where it
/// says anything at all.
#[derive(Debug, PartialEq, Eq)]
pub struct FieldOpsConfig {
    pub add: Option<OpsOperationType>,
    pub sub: Option<OpsOperationType>,
    pub mul: Option<OpsOperationType>,
    pub div: Option<OpsOperationType>,
    pub add_assign: Option<OpsOperationType>,
    pub sub_assign: Option<OpsOperationType>,
    pub mul_assign: Option<OpsOperationType>,
    pub div_assign: Option<OpsOperationType>,
}

impl FieldOpsConfig {
    /// No form configured.
    pub open spec fn spec_default() -> Self {
        FieldOpsConfig {
            add: None,
            sub: None,
            mul: None,
            div: None,
            add_assign: None,
            sub_assign: None,
            mul_assign: None,
            div_assign: None,
        }
    }

    /// The contribution configured for one form.
    pub open spec fn spec_slot(self, slot: OpsSlot) -> Option<OpsOperationType> {
        match slot {
            OpsSlot::Add => self.add,
            OpsSlot::Sub => self.sub,
            OpsSlot::Mul => self.mul,
            OpsSlot::Div => self.div,
            OpsSlot::AddAssign => self.add_assign,
            OpsSlot::SubAssign => self.sub_assign,
            OpsSlot::MulAssign => self.mul_assign,
            OpsSlot::DivAssign => self.div_assign,
        }
    }

    /// The configuration with one form's contribution replaced.
    pub open spec fn spec_with_slot(self, slot: OpsSlot, v: Option<OpsOperationType>) -> Self {
        match slot {
            OpsSlot::Add => FieldOpsConfig { add: v, ..self },
            OpsSlot::Sub => FieldOpsConfig { sub: v, ..self },
            OpsSlot::Mul => FieldOpsConfig { mul: v, ..self },
            OpsSlot::Div => FieldOpsConfig { div: v, ..self },
            OpsSlot::AddAssign => FieldOpsConfig { add_assign: v, ..self },
            OpsSlot::SubAssign => FieldOpsConfig { sub_assign: v, ..self },
            OpsSlot::MulAssign => FieldOpsConfig { mul_assign: v, ..self },
            OpsSlot::DivAssign => FieldOpsConfig { div_assign: v, ..self },
        }
    }

    fn set_slot(&mut self, slot: OpsSlot, v: Option<OpsOperationType>)
        ensures
            *final(self) == old(self).spec_with_slot(slot, v),
    {
        match slot {
            OpsSlot::Add => {
                self.add = v;
            },
            OpsSlot::Sub => {
                self.sub = v;
            },
            OpsSlot::Mul => {
                self.mul = v;
            },
            OpsSlot::Div => {
                self.div = v;
            },
            OpsSlot::AddAssign => {
                self.add_assign = v;
            },
            OpsSlot::SubAssign => {
                self.sub_assign = v;
            },
            OpsSlot::MulAssign => {
                self.mul_assign = v;
            },
            OpsSlot::DivAssign => {
                self.div_assign = v;
            },
        }
    }
}

impl Default for FieldOpsConfig {
    /// No form configured.
    fn default() -> (r: Self)
        ensures
            r == FieldOpsConfig::spec_default(),
    {
        FieldOpsConfig {
            add: None,
            sub: None,
            mul: None,
            div: None,
            add_assign: None,
            sub_assign: None,
            mul_assign: None,
            div_assign: None,
        }
    }
}

/// One step of a field's `ops(...)` group.  A bare known form inherits the
/// family's operator; a literal selects the contribution; every other entry
/// is rejected, except bare literals, which are passed over.
pub open spec fn field_ops_step(acc: (FieldOpsConfig, Seq<Diag>), e: AttrEntry) -> (
    FieldOpsConfig,
    Seq<Diag>,
) {
    match e {
        AttrEntry::Flag { name, span } => match spec_ops_slot(name@) {
            Some(slot) => (
                acc.0.spec_with_slot(slot, Some(OpsOperationType::Inherit)),
                acc.1,
            ),
            None => (acc.0, acc.1 + seq![Diag { kind: DiagKind::UnknownOptionError, span }]),
        },
        AttrEntry::KeyValue { name, value, span } => match spec_ops_slot(name@) {
            Some(slot) => match OpsOperationType::spec_from_lit(value) {
                Some(op) => (acc.0.spec_with_slot(slot, Some(op)), acc.1),
                None => (acc.0, acc.1 + seq![Diag { kind: DiagKind::ConfigShapeError, span }]),
            },
            None => (acc.0, acc.1 + seq![Diag { kind: DiagKind::UnknownOptionError, span }]),
        },
        AttrEntry::Group { name, span, .. } => match spec_ops_slot(name@) {
            Some(_) => (acc.0, acc.1 + seq![Diag { kind: DiagKind::ConfigShapeError, span }]),
            None => (acc.0, acc.1 + seq![Diag { kind: DiagKind::UnknownOptionError, span }]),
        },
        AttrEntry::Literal { .. } => acc,
        AttrEntry::Opaque { span } => (
            acc.0,
            acc.1 + seq![Diag { kind: DiagKind::UnknownOptionError, span }],
        ),
    }
}

/// A field's `ops(...)` group folded left to right; a later entry for the
/// same form overrides an earlier one.
pub open spec fn field_ops_fold(entries: Seq<AttrEntry>, acc: (FieldOpsConfig, Seq<Diag>)) -> (
    FieldOpsConfig,
    Seq<Diag>,
)
    decreases entries.len(),
{
    if entries.len() == 0 {
        acc
    } else {
        field_ops_fold(entries.drop_first(), field_ops_step(acc, entries.first()))
    }
}

/// What one field's whole `ops(...)` group resolves to, starting from
/// nothing configured.
pub open spec fn field_ops_group_spec(entries: Seq<AttrEntry>) -> (FieldOpsConfig, Seq<Diag>) {
    field_ops_fold(entries, (FieldOpsConfig::spec_default(), Seq::empty()))
}

proof fn lemma_field_ops_fold_step(entries: Seq<AttrEntry>, acc: (FieldOpsConfig, Seq<Diag>), i: int)
    requires
        0 <= i < entries.len(),
    ensures
        field_ops_fold(entries.skip(i), acc) == field_ops_fold(
            entries.skip(i + 1),
            field_ops_step(acc, entries[i]),
        ),
{
    assert(entries.skip(i).first() == entries[i]);
    assert(entries.skip(i).drop_first() =~= entries.skip(i + 1));
}

impl FieldOpsConfig {
    /// Resolves one field's `ops(...)` group: every entry configures one of
    /// the eight forms or is rejected, later entries for the same form win,
    /// and every failure is reported without stopping the walk.
    pub fn from_meta(entries: &Vec<AttrEntry>) -> (r: (FieldOpsConfig, Vec<Diag>))
        ensures
            (r.0, r.1@) == field_ops_group_spec(entries@),
    {
        let mut cfg = FieldOpsConfig::default();
        let mut diags: Vec<Diag> = Vec::new();
        let ghost all = entries@;
        let ghost goal = field_ops_fold(all, (cfg, diags@));
        proof {
            assert(all.skip(0) =~= all);
        }
        let n = entries.len();
        for i in 0..n
            invariant
                n == all.len(),
                all == entries@,
                goal == field_ops_fold(all.skip(i as int), (cfg, diags@)),
                goal == field_ops_group_spec(entries@),
        {
            let ghost acc0 = (cfg, diags@);
            proof {
                lemma_field_ops_fold_step(all, acc0, i as int);
            }
            match &entries[i] {
                AttrEntry::Flag { name, span } => match ops_slot_of(name) {
                    Some(slot) => {
                        cfg.set_slot(slot, Some(OpsOperationType::Inherit));
                    },
                    None => {
                        diags.push(Diag { kind: DiagKind::UnknownOptionError, span: *span });
                    },
                },
                AttrEntry::KeyValue { name, value, span } => match ops_slot_of(name) {
                    Some(slot) => match OpsOperationType::from_lit(value) {
                        Some(op) => {
                            cfg.set_slot(slot, Some(op));
                        },
                        None => {
                            diags.push(Diag { kind: DiagKind::ConfigShapeError, span: *span });
                        },
                    },
                    None => {
                        diags.push(Diag { kind: DiagKind::UnknownOptionError, span: *span });
                    },
                },
                AttrEntry::Group { name, span, .. } => match ops_slot_of(name) {
                    Some(_) => {
                        diags.push(Diag { kind: DiagKind::ConfigShapeError, span: *span });
                    },
                    None => {
                        diags.push(Diag { kind: DiagKind::UnknownOptionError, span: *span });
                    },
                },
                AttrEntry::Literal { .. } => {},
                AttrEntry::Opaque { span } => {
                    diags.push(Diag { kind: DiagKind::UnknownOptionError, span: *span });
                },
            }
            proof {
                let stepped = field_ops_step(acc0, all[i as int]);
                assert(diags@ =~= stepped.1);
                assert(cfg == stepped.0);
            }
        }
        proof {
            assert(all.skip(n as int) =~= Seq::<AttrEntry>::empty());
        }
        (cfg, diags)
    }
}

/// The slot of one family in one form.
pub open spec fn form_slot(fam: OpsType, assign: bool) -> OpsSlot {
    match (fam, assign) {
        (OpsType::Add, false) => OpsSlot::Add,
        (OpsType::Sub, false) => OpsSlot::Sub,
        (OpsType::Mul, false) => OpsSlot::Mul,
        (OpsType::Div, false) => OpsSlot::Div,
        (OpsType::Add, true) => OpsSlot::AddAssign,
        (OpsType::Sub, true) => OpsSlot::SubAssign,
        (OpsType::Mul, true) => OpsSlot::MulAssign,
        (OpsType::Div, true) => OpsSlot::DivAssign,
    }
}

/// The structure-level switch of one family.
pub open spec fn spec_family_switch(ops: StructOpsConfig, fam: OpsType) -> Option<
    OpsAssignableType,
> {
    match fam {
        OpsType::Add => ops.add,
        OpsType::Sub => ops.sub,
        OpsType::Mul => ops.mul,
        OpsType::Div => ops.div,
    }
}

/// Whether one family is generated in one form: the plain form under
/// `Plain` or `Both`, the in-place form under `Assign` or `Both`, nothing
/// when the family is unset.
pub open spec fn covered(ops: StructOpsConfig, fam: OpsType, assign: bool) -> bool {
    match spec_family_switch(ops, fam) {
        Some(OpsAssignableType::Both) => true,
        Some(OpsAssignableType::Plain) => !assign,
        Some(OpsAssignableType::Assign) => assign,
        None => false,
    }
}

/// What one field effectively contributes to one form: its own
/// configuration, or inheriting the family's operator where it says
/// nothing.
pub open spec fn eff_op(cfg: FieldOpsConfig, slot: OpsSlot) -> OpsOperationType {
    match cfg.spec_slot(slot) {
        Some(op) => op,
        None => OpsOperationType::Inherit,
    }
}

/// Whether a plan term renders one contribution: pass-through for ignore,
/// the native operator for inherit, and for a manual template the snippet
/// with its placeholders substituted.
pub open spec fn term_matches(t: OpTerm, op: OpsOperationType) -> bool {
    match op {
        OpsOperationType::Ignore => t is Keep,
        OpsOperationType::Inherit => t is Native,
        OpsOperationType::Manual(m) => t matches OpTerm::Template(s) && s@ == subst_spec(m@),
    }
}

/// The plain form lists every field, each with its contribution's term.
pub open spec fn plain_ops_match(
    list: Seq<FieldOp>,
    fs: Seq<StructFieldContent>,
    slot: OpsSlot,
) -> bool {
    &&& list.len() == fs.len()
    &&& forall|j: int|
        0 <= j < fs.len() ==> (#[trigger] list[j]).field == fs[j].ident && term_matches(
            list[j].term,
            eff_op(fs[j].config.ops, slot),
        )
}

/// The in-place form lists, in order, exactly the fields whose contribution
/// is not ignore, each with its contribution's term.
pub open spec fn assign_ops_match(
    list: Seq<FieldOp>,
    fs: Seq<StructFieldContent>,
    slot: OpsSlot,
) -> bool
    decreases fs.len(),
{
    if fs.len() == 0 {
        list.len() == 0
    } else if eff_op(fs.last().config.ops, slot) is Ignore {
        assign_ops_match(list, fs.drop_last(), slot)
    } else {
        &&& list.len() > 0
        &&& list.last().field == fs.last().ident
        &&& term_matches(list.last().term, eff_op(fs.last().config.ops, slot))
        &&& assign_ops_match(list.drop_last(), fs.drop_last(), slot)
    }
}

/// The template diagnostics of one form: every manual template that, after
/// substitution, is no well-formed expression, reported at its field.
pub open spec fn form_template_diags(fs: Seq<StructFieldContent>, slot: OpsSlot) -> Seq<Diag>
    decreases fs.len(),
{
    if fs.len() == 0 {
        Seq::empty()
    } else {
        form_template_diags(fs.drop_last(), slot) + (match eff_op(fs.last().config.ops, slot) {
            OpsOperationType::Manual(m) => if !parses_as_expr(subst_spec(m@)) {
                seq![Diag { kind: DiagKind::ConfigValueError, span: fs.last().span }]
            } else {
                Seq::empty()
            },
            _ => Seq::empty(),
        })
    }
}

/// The diagnostics of one family: its plain form's, then its in-place
/// form's, for the forms it is generated in.
pub open spec fn family_diags(c: RichStructContent, fam: OpsType) -> Seq<Diag> {
    (if covered(c.config.ops, fam, false) {
        form_template_diags(c.fields@, form_slot(fam, false))
    } else {
        Seq::empty()
    }) + (if covered(c.config.ops, fam, true) {
        form_template_diags(c.fields@, form_slot(fam, true))
    } else {
        Seq::empty()
    })
}

/// Every arithmetic diagnostic of one structure, family by family.
pub open spec fn ops_synth_diags(c: RichStructContent) -> Seq<Diag> {
    family_diags(c, OpsType::Add) + family_diags(c, OpsType::Sub) + family_diags(c, OpsType::Mul)
        + family_diags(c, OpsType::Div)
}

impl FieldOpsConfig {
    /// The contribution configured for one form.
    fn get_slot(&self, slot: OpsSlot) -> (r: &Option<OpsOperationType>)
        ensures
            *r == self.spec_slot(slot),
    {
        match slot {
            OpsSlot::Add => &self.add,
            OpsSlot::Sub => &self.sub,
            OpsSlot::Mul => &self.mul,
            OpsSlot::Div => &self.div,
            OpsSlot::AddAssign => &self.add_assign,
            OpsSlot::SubAssign => &self.sub_assign,
            OpsSlot::MulAssign => &self.mul_assign,
            OpsSlot::DivAssign => &self.div_assign,
        }
    }
}

/// The terms of one form: per field its contribution's term, the in-place
/// form omitting the ignored fields, and a diagnostic for every manual
/// template that does not substitute into a well-formed expression.
#[verifier::loop_isolation(false)]
fn build_form(fields: &Vec<StructFieldContent>, slot: OpsSlot, assign: bool) -> (r: (
    Vec<FieldOp>,
    Vec<Diag>,
))
    ensures
        r.1@ == form_template_diags(fields@, slot),
        if assign {
            assign_ops_match(r.0@, fields@, slot)
        } else {
            plain_ops_match(r.0@, fields@, slot)
        },
{
    let mut list: Vec<FieldOp> = Vec::new();
    let mut diags: Vec<Diag> = Vec::new();
    let n = fields.len();
    for i in 0..n
        invariant
            diags@ == form_template_diags(fields@.subrange(0, i as int), slot),
            if assign {
                assign_ops_match(list@, fields@.subrange(0, i as int), slot)
            } else {
                plain_ops_match(list@, fields@.subrange(0, i as int), slot)
            },
    {
        proof {
            assert(fields@.subrange(0, i + 1).drop_last() =~= fields@.subrange(0, i as int));
            assert(fields@.subrange(0, i + 1).last() == fields@[i as int]);
        }
        let ghost list0 = list@;
        let f = &fields[i];
        match f.config.ops.get_slot(slot) {
            Some(OpsOperationType::Ignore) => {
                if !assign {
                    list.push(FieldOp { field: f.ident.clone(), term: OpTerm::Keep });
                }
            },
            Some(OpsOperationType::Manual(m)) => {
                let t = substitute_template(m);
                if !check_expr_snippet(t.as_str()) {
                    diags.push(Diag { kind: DiagKind::ConfigValueError, span: f.span });
                }
                list.push(FieldOp { field: f.ident.clone(), term: OpTerm::Template(t) });
            },
            _ => {
                list.push(FieldOp { field: f.ident.clone(), term: OpTerm::Native });
            },
        }
        proof {
            if assign {
                if eff_op(fields@[i as int].config.ops, slot) is Ignore {
                    assert(list@ == list0);
                } else {
                    assert(list@.drop_last() =~= list0);
                }
                assert(assign_ops_match(list@, fields@.subrange(0, i + 1), slot));
            } else {
                assert forall|j: int| 0 <= j < i + 1 implies (#[trigger] list@[j]).field
                    == fields@.subrange(0, i + 1)[j].ident && term_matches(
                    list@[j].term,
                    eff_op(fields@.subrange(0, i + 1)[j].config.ops, slot),
                ) by {
                    if j < i {
                        assert(list@[j] == list0[j]);
                    }
                }
            }
        }
    }
    proof {
        assert(fields@.subrange(0, n as int) =~= fields@);
    }
    (list, diags)
}

impl StructOpsConfig {
    /// The arithmetic members of one family, in the forms its switch asks
    /// for: the plain form first, then the in-place one.
    fn impl_ops_family(content: &RichStructContent, fam: OpsType) -> (r: (
        Vec<PlanMember>,
        Vec<Diag>,
    ))
        ensures
            r.1@ == family_diags(*content, fam),
            forall|k: int|
                0 <= k < r.0@.len() ==> match #[trigger] r.0@[k] {
                    PlanMember::OpImpl { family, assign, fields } => {
                        &&& family == fam
                        &&& covered(content.config.ops, fam, assign)
                        &&& if assign {
                            assign_ops_match(fields@, content.fields@, form_slot(fam, true))
                        } else {
                            plain_ops_match(fields@, content.fields@, form_slot(fam, false))
                        }
                    },
                    _ => false,
                },
            has_op(r.0@, fam, false) == covered(content.config.ops, fam, false),
            has_op(r.0@, fam, true) == covered(content.config.ops, fam, true),
            forall|f2: OpsType, a2: bool|
                #[trigger] has_op(r.0@, f2, a2) ==> f2 == fam,
            member_kinds_unique(r.0@),
    {
        let switch: Option<OpsAssignableType> = match fam {
            OpsType::Add => content.config.ops.add,
            OpsType::Sub => content.config.ops.sub,
            OpsType::Mul => content.config.ops.mul,
            OpsType::Div => content.config.ops.div,
        };
        let (do_plain, do_assign): (bool, bool) = match switch {
            Some(OpsAssignableType::Both) => (true, true),
            Some(OpsAssignableType::Plain) => (true, false),
            Some(OpsAssignableType::Assign) => (false, true),
            None => (false, false),
        };
        let mut ms: Vec<PlanMember> = Vec::new();
        let mut diags: Vec<Diag> = Vec::new();
        let ghost mut plain_at: int = 0;
        let ghost mut assign_at: int = 0;
        if do_plain {
            let (list, mut ds) = build_form(&content.fields, form_slot_exec(fam, false), false);
            ms.push(PlanMember::OpImpl { family: fam, assign: false, fields: list });
            diags.append(&mut ds);
            proof {
                plain_at = ms@.len() - 1;
            }
        }
        if do_assign {
            let (list, mut ds) = build_form(&content.fields, form_slot_exec(fam, true), true);
            ms.push(PlanMember::OpImpl { family: fam, assign: true, fields: list });
            diags.append(&mut ds);
            proof {
                assign_at = ms@.len() - 1;
            }
        }
        proof {
            assert(diags@ =~= family_diags(*content, fam));
            if do_plain {
                assert(ms@[plain_at] matches PlanMember::OpImpl { family, assign, .. } && family
                    == fam && assign == false);
            }
            if do_assign {
                assert(ms@[assign_at] matches PlanMember::OpImpl { family, assign, .. } && family
                    == fam && assign == true);
            }
        }
        (ms, diags)
    }

    /// The arithmetic members a resolved structure asks for: for each
    /// requested family, its forms in order, every field contributing its
    /// configured term, with every ill-formed manual template reported.
    pub fn impl_ops(content: &RichStructContent) -> (r: (Vec<PlanMember>, Vec<Diag>))
        ensures
            r.1@ == ops_synth_diags(*content),
            forall|k: int|
                0 <= k < r.0@.len() ==> match #[trigger] r.0@[k] {
                    PlanMember::OpImpl { family, assign, fields } => {
                        &&& covered(content.config.ops, family, assign)
                        &&& if assign {
                            assign_ops_match(fields@, content.fields@, form_slot(family, true))
                        } else {
                            plain_ops_match(fields@, content.fields@, form_slot(family, false))
                        }
                    },
                    _ => false,
                },
            forall|fam: OpsType, asn: bool|
                #[trigger] has_op(r.0@, fam, asn) == covered(content.config.ops, fam, asn),
            member_kinds_unique(r.0@),
    {
        let (mut ms, mut diags) = StructOpsConfig::impl_ops_family(content, OpsType::Add);
        let (mut m2, mut d2) = StructOpsConfig::impl_ops_family(content, OpsType::Sub);
        let (mut m3, mut d3) = StructOpsConfig::impl_ops_family(content, OpsType::Mul);
        let (mut m4, mut d4) = StructOpsConfig::impl_ops_family(content, OpsType::Div);
        let ghost s1 = ms@;
        let ghost s2 = m2@;
        let ghost s3 = m3@;
        let ghost s4 = m4@;
        ms.append(&mut m2);
        ms.append(&mut m3);
        ms.append(&mut m4);
        diags.append(&mut d2);
        diags.append(&mut d3);
        diags.append(&mut d4);
        proof {
            assert(ms@ =~= s1 + s2 + s3 + s4);
            assert(diags@ =~= ops_synth_diags(*content));
            let l1 = s1.len() as int;
            let l2 = s2.len() as int;
            let l3 = s3.len() as int;
            assert forall|k1: int, k2: int| 0 <= k1 < k2 < ms@.len() implies !same_singleton_kind(
                #[trigger] ms@[k1],
                #[trigger] ms@[k2],
            ) by {
                if k1 < l1 {
                    assert(ms@[k1] == s1[k1]);
                } else if k1 < l1 + l2 {
                    assert(ms@[k1] == s2[k1 - l1]);
                } else if k1 < l1 + l2 + l3 {
                    assert(ms@[k1] == s3[k1 - l1 - l2]);
                } else {
                    assert(ms@[k1] == s4[k1 - l1 - l2 - l3]);
                }
                if k2 < l1 {
                    assert(ms@[k2] == s1[k2]);
                } else if k2 < l1 + l2 {
                    assert(ms@[k2] == s2[k2 - l1]);
                } else if k2 < l1 + l2 + l3 {
                    assert(ms@[k2] == s3[k2 - l1 - l2]);
                } else {
                    assert(ms@[k2] == s4[k2 - l1 - l2 - l3]);
                }
            }
            assert forall|fam: OpsType, asn: bool| #[trigger] has_op(ms@, fam, asn) == covered(
                content.config.ops,
                fam,
                asn,
            ) by {
                let seg = match fam {
                    OpsType::Add => s1,
                    OpsType::Sub => s2,
                    OpsType::Mul => s3,
                    OpsType::Div => s4,
                };
                if covered(content.config.ops, fam, asn) {
                    assert(has_op(seg, fam, asn));
                    let k = choose|k: int|
                        0 <= k < seg.len() && ((#[trigger] seg[k]) matches PlanMember::OpImpl {
                            family,
                            assign,
                            ..
                        } && family == fam && assign == asn);
                    let off: int = match fam {
                        OpsType::Add => 0,
                        OpsType::Sub => s1.len() as int,
                        OpsType::Mul => (s1.len() + s2.len()) as int,
                        OpsType::Div => (s1.len() + s2.len() + s3.len()) as int,
                    };
                    assert(ms@[off + k] == seg[k]);
                    assert(has_op(ms@, fam, asn));
                } else {
                    if has_op(ms@, fam, asn) {
                        let k = choose|k: int|
                            0 <= k < ms@.len() && ((#[trigger] ms@[k])
                                matches PlanMember::OpImpl {
                                family,
                                assign,
                                ..
                            } && family == fam && assign == asn);
                        if k < s1.len() {
                            assert(ms@[k] == s1[k]);
                            assert(has_op(s1, fam, asn));
                        } else if k < s1.len() + s2.len() {
                            assert(ms@[k] == s2[k - s1.len()]);
                            assert(has_op(s2, fam, asn));
                        } else if k < s1.len() + s2.len() + s3.len() {
                            assert(ms@[k] == s3[k - s1.len() - s2.len()]);
                            assert(has_op(s3, fam, asn));
                        } else {
                            assert(ms@[k] == s4[k - s1.len() - s2.len() - s3.len()]);
                            assert(has_op(s4, fam, asn));
                        }
                        assert(false);
                    }
                }
            }
        }
        (ms, diags)
    }
}

/// The slot of one family in one form.
fn form_slot_exec(fam: OpsType, assign: bool) -> (r: OpsSlot)
    ensures
        r == form_slot(fam, assign),
{
    match (fam, assign) {
        (OpsType::Add, false) => OpsSlot::Add,
        (OpsType::Sub, false) => OpsSlot::Sub,
        (OpsType::Mul, false) => OpsSlot::Mul,
        (OpsType::Div, false) => OpsSlot::Div,
        (OpsType::Add, true) => OpsSlot::AddAssign,
        (OpsType::Sub, true) => OpsSlot::SubAssign,
        (OpsType::Mul, true) => OpsSlot::MulAssign,
        (OpsType::Div, true) => OpsSlot::DivAssign,
    }
}

} // verus!
