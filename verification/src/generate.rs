//! Synthesis: resolving a whole declaration into its ordered, fully
//! configured content, and assembling the plan of generated members.

use vstd::prelude::*;

use crate::cmp::{cmp_synth_diags, eq_fields_spec, has_rank, is_ranked_chain, StructCmpConfig};
use crate::field_config::{field_config_spec, groups_fit, FieldConfig, GetterType, SetterType};
use crate::meta::AttrEntry;
use crate::ops::{assign_ops_match, covered, form_slot, ops_synth_diags, plain_ops_match, OpsType,
    StructOpsConfig};
use crate::plan::{has_const_default, has_debug, has_eq, has_op, has_ord, has_partial_default,
    has_partial_eq, has_partial_ord, has_partial_ord_via_ord, has_runtime_default,
    has_std_default, is_accessor_member, is_base_member, is_cmp_member, member_group,
    member_kinds_unique, same_singleton_kind, Binding, PlanMember, SynthesisPlan};
use crate::sorting::{position_appears, sort_stable_indexed};
use crate::struct_config::{struct_config_spec, StructConfig};
use crate::synerr::{pass_outcome, CompoundError, Diag, DiagKind};

verus! {

/// One field of the declaration, as the upstream parser hands it over: its
/// name, its inline default initializer if it wrote one, and its attribute
/// option lists, already concatenated in declaration order.
#[derive(Debug)]
pub struct FieldDecl {
    pub ident: String,
    pub inline_default: Option<String>,
    pub entries: Vec<AttrEntry>,
    pub span: u64,
}

/// The whole declaration: the structure's name, its attribute option lists
/// concatenated in declaration order, and its ordered fields.
#[derive(Debug)]
pub struct StructDecl {
    pub ident: String,
    pub entries: Vec<AttrEntry>,
    pub fields: Vec<FieldDecl>,
    pub span: u64,
}

impl StructDecl {
    /// The machine bounds resolution needs: positional ranks must fit the
    /// machine's signed word.
    pub open spec fn wf(&self) -> bool {
        &&& self.fields@.len() <= i64::MAX
        &&& forall|i: int|
            0 <= i < self.fields@.len() ==> groups_fit((#[trigger] self.fields@[i]).entries@)
    }
}

/// One field, fully resolved: its policy, its name, and the position it was
/// declared at, which the resolved order's tie-breaks and the construction
/// ranks refer to.
#[derive(Debug)]
pub struct StructFieldContent {
    pub config: FieldConfig,
    pub ident: String,
    pub decl_index: usize,
    pub span: u64,
}

/// The declaration, fully resolved: the structure's policy and its fields,
/// reordered by their effective construction rank.
#[derive(Debug)]
pub struct RichStructContent {
    pub config: StructConfig,
    pub ident: String,
    pub fields: Vec<StructFieldContent>,
    pub span: u64,
}

/// What one field's declaration resolves to, before reordering: its
/// attribute entries folded, and, where they left no default, the inline
/// initializer as the default expression.
pub open spec fn resolved_field_config(f: FieldDecl, set: SetterType, get: GetterType) -> (
    FieldConfig,
    Seq<Diag>,
) {
    let base = field_config_spec(f.entries@, set, get);
    if base.0.default_value is None && f.inline_default is Some {
        (FieldConfig { default_value: f.inline_default, ..base.0 }, base.1)
    } else {
        base
    }
}

/// One field's resolved content at its declaration position.
pub open spec fn resolved_field_content(
    f: FieldDecl,
    decl_index: usize,
    set: SetterType,
    get: GetterType,
) -> (StructFieldContent, Seq<Diag>) {
    let rc = resolved_field_config(f, set, get);
    (
        StructFieldContent { config: rc.0, ident: f.ident, decl_index, span: f.span },
        rc.1,
    )
}

/// The structure policy a declaration resolves to.
pub open spec fn resolved_struct_config(decl: StructDecl) -> StructConfig {
    struct_config_spec(decl.entries@, decl.span).0
}

/// The resolved content of the field declared at one position, under the
/// structure's accessor and mutator defaults.
pub open spec fn resolved_field(decl: StructDecl, i: int) -> StructFieldContent {
    resolved_field_content(
        decl.fields@[i],
        i as usize,
        resolved_struct_config(decl).override_auto_set,
        resolved_struct_config(decl).override_auto_get,
    ).0
}

/// The diagnostics of the field declared at one position.
pub open spec fn field_diags(decl: StructDecl, i: int) -> Seq<Diag> {
    resolved_field_content(
        decl.fields@[i],
        i as usize,
        resolved_struct_config(decl).override_auto_set,
        resolved_struct_config(decl).override_auto_get,
    ).1
}

/// The diagnostics of the fields declared before one position, in order.
pub open spec fn fields_diags_upto(decl: StructDecl, i: int) -> Seq<Diag>
    decreases i,
{
    if i <= 0 {
        Seq::empty()
    } else {
        fields_diags_upto(decl, i - 1) + field_diags(decl, i - 1)
    }
}

/// Every diagnostic of resolving a declaration: the structure's own, then
/// each field's, in declaration order.
pub open spec fn resolution_diags(decl: StructDecl) -> Seq<Diag> {
    struct_config_spec(decl.entries@, decl.span).1 + fields_diags_upto(
        decl,
        decl.fields@.len() as int,
    )
}

/// The rank a resolved field is ordered by: its explicit rank if it set
/// one, else its declaration position.
pub open spec fn eff_key(fc: StructFieldContent) -> i64 {
    match fc.config.init_seq {
        Some(k) => k,
        None => fc.decl_index as i64,
    }
}

/// Some resolved field records the given declaration position.
pub open spec fn decl_index_appears(fs: Seq<StructFieldContent>, k: int) -> bool {
    exists|j: int| 0 <= j < fs.len() && (#[trigger] fs[j]).decl_index == k
}

/// The resolved fields stand in a stable sort by effective rank: every
/// declared field appears exactly once, ordered by its rank, with the
/// declaration position breaking ties.
pub open spec fn fields_resolved_sorted(fs: Seq<StructFieldContent>, decl: StructDecl) -> bool {
    &&& fs.len() == decl.fields@.len()
    &&& forall|j: int|
        0 <= j < fs.len() ==> (#[trigger] fs[j]).decl_index < fs.len() && fs[j] == resolved_field(
            decl,
            fs[j].decl_index as int,
        )
    &&& forall|k: int| 0 <= k < fs.len() ==> #[trigger] decl_index_appears(fs, k)
    &&& forall|j1: int, j2: int|
        0 <= j1 < j2 < fs.len() ==> (eff_key(fs[j1]) < eff_key(fs[j2]) || (eff_key(fs[j1])
            == eff_key(fs[j2]) && fs[j1].decl_index < fs[j2].decl_index))
}

/// Every field carries a default expression, so a full default can be
/// constructed.
pub open spec fn can_construct(fs: Seq<StructFieldContent>) -> bool {
    forall|i: int| 0 <= i < fs.len() ==> (#[trigger] fs[i]).config.default_value is Some
}

/// The fields' names, in resolved order.
pub open spec fn idents_spec(fs: Seq<StructFieldContent>) -> Seq<String>
    decreases fs.len(),
{
    if fs.len() == 0 {
        Seq::empty()
    } else {
        idents_spec(fs.drop_last()) + seq![fs.last().ident]
    }
}

/// The names of the fields without a default expression, in resolved order:
/// the partial constructor's parameters.
pub open spec fn partial_params_spec(fs: Seq<StructFieldContent>) -> Seq<String>
    decreases fs.len(),
{
    if fs.len() == 0 {
        Seq::empty()
    } else {
        partial_params_spec(fs.drop_last()) + (if fs.last().config.default_value is None {
            seq![fs.last().ident]
        } else {
            Seq::empty()
        })
    }
}

/// The names of the fields the debug formatter shows, in resolved order.
pub open spec fn debug_fields_spec(fs: Seq<StructFieldContent>) -> Seq<String>
    decreases fs.len(),
{
    if fs.len() == 0 {
        Seq::empty()
    } else {
        debug_fields_spec(fs.drop_last()) + (if !fs.last().config.no_debug {
            seq![fs.last().ident]
        } else {
            Seq::empty()
        })
    }
}

/// The construction bindings: each field with a default expression bound to
/// it, in resolved order, so that a later default may refer to an earlier
/// field.
pub open spec fn default_bindings_spec(fs: Seq<StructFieldContent>) -> Seq<Binding>
    decreases fs.len(),
{
    if fs.len() == 0 {
        Seq::empty()
    } else {
        default_bindings_spec(fs.drop_last()) + (match fs.last().config.default_value {
            Some(e) => seq![Binding { field: fs.last().ident, expr: e }],
            None => Seq::empty(),
        })
    }
}

/// The missing-default violation of one resolved structure: a full default
/// mode was requested, but some field carries no default expression, so no
/// full default can be constructed.  The partial constructor tolerates
/// missing defaults per-field and raises nothing here.
pub open spec fn missing_default_diags(c: RichStructContent) -> Seq<Diag> {
    if (c.config.generate_default || c.config.const_default || c.config.impl_std_default)
        && !can_construct(c.fields@) {
        seq![Diag { kind: DiagKind::MissingDefaultForModeError, span: c.span }]
    } else {
        Seq::empty()
    }
}

/// The accessor, mutator and helper members of one field, in the order they
/// are generated: accessors, then mutators, then the closure helpers.
pub open spec fn field_members_spec(f: StructFieldContent) -> Seq<PlanMember> {
    (match f.config.auto_get {
        GetterType::Full => seq![
            PlanMember::Getter { field: f.ident },
            PlanMember::MoveGetter { field: f.ident },
        ],
        GetterType::GetOnly => seq![PlanMember::Getter { field: f.ident }],
        GetterType::MoveOnly => seq![PlanMember::MoveGetter { field: f.ident }],
        GetterType::No => Seq::empty(),
    }) + (match f.config.auto_set {
        SetterType::Full => seq![
            PlanMember::Setter { field: f.ident },
            PlanMember::WithSetter { field: f.ident },
        ],
        SetterType::SetOnly => seq![PlanMember::Setter { field: f.ident }],
        SetterType::WithOnly => seq![PlanMember::WithSetter { field: f.ident }],
        SetterType::No => Seq::empty(),
    }) + (if f.config.do_with {
        seq![PlanMember::DoWith { field: f.ident }]
    } else {
        Seq::empty()
    }) + (if f.config.mappable {
        seq![PlanMember::MapWith { field: f.ident }]
    } else {
        Seq::empty()
    })
}

/// The accessor members of the first fields, in order.
pub open spec fn accessors_upto(fs: Seq<StructFieldContent>, i: int) -> Seq<PlanMember>
    decreases i,
{
    if i <= 0 {
        Seq::empty()
    } else {
        accessors_upto(fs, i - 1) + field_members_spec(fs[i - 1])
    }
}

/// The accessor members of every field, in order.
pub open spec fn accessors_spec(fs: Seq<StructFieldContent>) -> Seq<PlanMember> {
    accessors_upto(fs, fs.len() as int)
}

impl StructFieldContent {
    /// The accessor, mutator and helper members this field's policy asks
    /// for.
    pub fn generate_impl_code(&self) -> (r: Vec<PlanMember>)
        ensures
            r@ == field_members_spec(*self),
    {
        let mut code: Vec<PlanMember> = Vec::new();
        match self.auto_get() {
            GetterType::Full => {
                code.push(PlanMember::Getter { field: self.ident.clone() });
                code.push(PlanMember::MoveGetter { field: self.ident.clone() });
            },
            GetterType::GetOnly => {
                code.push(PlanMember::Getter { field: self.ident.clone() });
            },
            GetterType::MoveOnly => {
                code.push(PlanMember::MoveGetter { field: self.ident.clone() });
            },
            GetterType::No => {},
        }
        match self.auto_set() {
            SetterType::Full => {
                code.push(PlanMember::Setter { field: self.ident.clone() });
                code.push(PlanMember::WithSetter { field: self.ident.clone() });
            },
            SetterType::SetOnly => {
                code.push(PlanMember::Setter { field: self.ident.clone() });
            },
            SetterType::WithOnly => {
                code.push(PlanMember::WithSetter { field: self.ident.clone() });
            },
            SetterType::No => {},
        }
        if self.config.do_with {
            code.push(PlanMember::DoWith { field: self.ident.clone() });
        }
        if self.config.mappable {
            code.push(PlanMember::MapWith { field: self.ident.clone() });
        }
        proof {
            assert(code@ =~= field_members_spec(*self));
        }
        code
    }

    fn auto_get(&self) -> (r: GetterType)
        ensures
            r == self.config.auto_get,
    {
        self.config.auto_get
    }

    fn auto_set(&self) -> (r: SetterType)
        ensures
            r == self.config.auto_set,
    {
        self.config.auto_set
    }
}

impl RichStructContent {
    /// Whether every field carries a default expression.
    pub fn can_impl_default(&self) -> (r: bool)
        ensures
            r == can_construct(self.fields@),
    {
        let n = self.fields.len();
        for i in 0..n
            invariant
                n == self.fields@.len(),
                forall|j: int|
                    0 <= j < i ==> (#[trigger] self.fields@[j]).config.default_value is Some,
        {
            if self.fields[i].config.default_value.is_none() {
                return false;
            }
        }
        true
    }

    /// The fields' names, in resolved order.
    fn idents_vec(&self) -> (r: Vec<String>)
        ensures
            r@ == idents_spec(self.fields@),
    {
        let mut out: Vec<String> = Vec::new();
        let n = self.fields.len();
        for i in 0..n
            invariant
                n == self.fields@.len(),
                out@ == idents_spec(self.fields@.subrange(0, i as int)),
        {
            proof {
                assert(self.fields@.subrange(0, i + 1).drop_last() =~= self.fields@.subrange(
                    0,
                    i as int,
                ));
                assert(self.fields@.subrange(0, i + 1).last() == self.fields@[i as int]);
            }
            out.push(self.fields[i].ident.clone());
        }
        proof {
            assert(self.fields@.subrange(0, n as int) =~= self.fields@);
        }
        out
    }

    /// The partial constructor's parameters: the fields without defaults.
    fn partial_params_vec(&self) -> (r: Vec<String>)
        ensures
            r@ == partial_params_spec(self.fields@),
    {
        let mut out: Vec<String> = Vec::new();
        let n = self.fields.len();
        for i in 0..n
            invariant
                n == self.fields@.len(),
                out@ == partial_params_spec(self.fields@.subrange(0, i as int)),
        {
            proof {
                assert(self.fields@.subrange(0, i + 1).drop_last() =~= self.fields@.subrange(
                    0,
                    i as int,
                ));
                assert(self.fields@.subrange(0, i + 1).last() == self.fields@[i as int]);
            }
            if self.fields[i].config.default_value.is_none() {
                out.push(self.fields[i].ident.clone());
            }
        }
        proof {
            assert(self.fields@.subrange(0, n as int) =~= self.fields@);
        }
        out
    }

    /// The names the debug formatter shows.
    fn debug_fields_vec(&self) -> (r: Vec<String>)
        ensures
            r@ == debug_fields_spec(self.fields@),
    {
        let mut out: Vec<String> = Vec::new();
        let n = self.fields.len();
        for i in 0..n
            invariant
                n == self.fields@.len(),
                out@ == debug_fields_spec(self.fields@.subrange(0, i as int)),
        {
            proof {
                assert(self.fields@.subrange(0, i + 1).drop_last() =~= self.fields@.subrange(
                    0,
                    i as int,
                ));
                assert(self.fields@.subrange(0, i + 1).last() == self.fields@[i as int]);
            }
            if !self.fields[i].config.no_debug {
                out.push(self.fields[i].ident.clone());
            }
        }
        proof {
            assert(self.fields@.subrange(0, n as int) =~= self.fields@);
        }
        out
    }

    /// The construction bindings of every defaulted field, in resolved
    /// order.
    fn impl_default_construct(&self) -> (r: Vec<Binding>)
        ensures
            r@ == default_bindings_spec(self.fields@),
    {
        let mut out: Vec<Binding> = Vec::new();
        let n = self.fields.len();
        for i in 0..n
            invariant
                n == self.fields@.len(),
                out@ == default_bindings_spec(self.fields@.subrange(0, i as int)),
        {
            proof {
                assert(self.fields@.subrange(0, i + 1).drop_last() =~= self.fields@.subrange(
                    0,
                    i as int,
                ));
                assert(self.fields@.subrange(0, i + 1).last() == self.fields@[i as int]);
            }
            match &self.fields[i].config.default_value {
                Some(e) => {
                    out.push(
                        Binding { field: self.fields[i].ident.clone(), expr: e.clone() },
                    );
                },
                None => {},
            }
        }
        proof {
            assert(self.fields@.subrange(0, n as int) =~= self.fields@);
        }
        out
    }
}

/// What each kind of member must hold for one resolved structure: the
/// constructors bind the defaulted fields in resolved order, the partial
/// constructor takes the fields without defaults, the debug formatter and
/// equality list their participating fields, the ordering chains are the
/// ranked fields stably sorted, and each arithmetic member carries its
/// fields' configured terms.
pub open spec fn member_content_ok(m: PlanMember, c: RichStructContent) -> bool {
    match m {
        PlanMember::PartialDefault { params, bindings, field_order } => {
            &&& params@ == partial_params_spec(c.fields@)
            &&& bindings@ == default_bindings_spec(c.fields@)
            &&& field_order@ == idents_spec(c.fields@)
        },
        PlanMember::RuntimeDefault { bindings } => bindings@ == default_bindings_spec(c.fields@),
        PlanMember::ConstDefault { bindings } => bindings@ == default_bindings_spec(c.fields@),
        PlanMember::StdDefault { bindings } => bindings@ == default_bindings_spec(c.fields@),
        PlanMember::DebugImpl { name, fields } => name == c.ident && fields@ == debug_fields_spec(
            c.fields@,
        ),
        PlanMember::PartialEqImpl { fields } => fields@ == eq_fields_spec(c.fields@),
        PlanMember::OrdImpl { chain } => is_ranked_chain(chain@, c.fields@, false),
        PlanMember::PartialOrdImpl { chain } => is_ranked_chain(chain@, c.fields@, true),
        PlanMember::OpImpl { family, assign, fields } => {
            &&& covered(c.config.ops, family, assign)
            &&& if assign {
                assign_ops_match(fields@, c.fields@, form_slot(family, true))
            } else {
                plain_ops_match(fields@, c.fields@, form_slot(family, false))
            }
        },
        _ => true,
    }
}

/// Every member an accessor prefix holds is an accessor, mutator or helper.
proof fn lemma_accessors_all_accessor(fs: Seq<StructFieldContent>, i: int)
    requires
        0 <= i <= fs.len(),
    ensures
        forall|k: int|
            0 <= k < accessors_upto(fs, i).len() ==> is_accessor_member(
                #[trigger] accessors_upto(fs, i)[k],
            ),
    decreases i,
{
    if i > 0 {
        lemma_accessors_all_accessor(fs, i - 1);
        let pre = accessors_upto(fs, i - 1);
        let add = field_members_spec(fs[i - 1]);
        assert forall|k: int|
            0 <= k < accessors_upto(fs, i).len() implies is_accessor_member(
            #[trigger] accessors_upto(fs, i)[k],
        ) by {
            if k < pre.len() {
                assert(accessors_upto(fs, i)[k] == pre[k]);
            } else {
                assert(accessors_upto(fs, i)[k] == add[k - pre.len()]);
            }
        }
    }
}

impl StructFieldContent {
    /// Resolves one declared field at its position, seeding the structure's
    /// accessor and mutator defaults: the resolved content comes back only
    /// if nothing failed, else every failure comes back together.
    pub fn from_syntax(
        syntax: FieldDecl,
        decl_index: usize,
        set: SetterType,
        get: GetterType,
    ) -> (r: Result<StructFieldContent, CompoundError>)
        requires
            groups_fit(syntax.entries@),
        ensures
            ({
                let out = resolved_field_content(syntax, decl_index, set, get);
                match r {
                    Ok(c) => out.1.len() == 0 && c == out.0,
                    Err(e) => out.1.len() > 0 && e.wf() && e.diags@ == out.1,
                }
            }),
    {
        let (c, diags) = StructFieldContent::resolve(syntax, decl_index, set, get);
        pass_outcome(c, diags)
    }

    /// The resolution pass itself.
    pub(crate) fn resolve(
        syntax: FieldDecl,
        decl_index: usize,
        set: SetterType,
        get: GetterType,
    ) -> (r: (StructFieldContent, Vec<Diag>))
        requires
            groups_fit(syntax.entries@),
        ensures
            (r.0, r.1@) == resolved_field_content(syntax, decl_index, set, get),
    {
        let FieldDecl { ident, inline_default, entries, span } = syntax;
        let (mut config, diags) = FieldConfig::resolve(&entries, set, get);
        if config.default_value.is_none() {
            if let Some(d) = inline_default {
                config.default_value = Some(d);
            }
        }
        (StructFieldContent { config, ident, decl_index, span }, diags)
    }
}

/// Four member groups, one after the other.
pub open spec fn seq4(
    a: Seq<PlanMember>,
    b: Seq<PlanMember>,
    c: Seq<PlanMember>,
    d: Seq<PlanMember>,
) -> Seq<PlanMember> {
    a + b + c + d
}

/// Composes the four member groups of a plan: the accessor prefix, the
/// construction and debug members, the comparison members, and the
/// arithmetic members.  Each group's presence facts carry over to the whole
/// list, and nothing outside a group can stand in for its members.
#[verifier::rlimit(100)]
proof fn lemma_to_impl_compose(
    c: RichStructContent,
    acc: Seq<PlanMember>,
    bseg: Seq<PlanMember>,
    cseg: Seq<PlanMember>,
    oseg: Seq<PlanMember>,
)
    requires
        forall|k: int| 0 <= k < acc.len() ==> is_accessor_member(#[trigger] acc[k]),
        forall|k: int|
            0 <= k < bseg.len() ==> is_base_member(#[trigger] bseg[k]) && member_content_ok(
                bseg[k],
                c,
            ),
        forall|k: int|
            0 <= k < cseg.len() ==> is_cmp_member(#[trigger] cseg[k]) && member_content_ok(
                cseg[k],
                c,
            ),
        forall|k: int|
            0 <= k < oseg.len() ==> (#[trigger] oseg[k]) is OpImpl && member_content_ok(
                oseg[k],
                c,
            ),
        has_partial_default(bseg) == c.config.partial_default,
        has_runtime_default(bseg) == (c.config.generate_default && can_construct(c.fields@)),
        has_const_default(bseg) == (c.config.const_default && can_construct(c.fields@)),
        has_std_default(bseg) == (c.config.impl_std_default && can_construct(c.fields@)),
        has_debug(bseg) == c.config.manual_debug,
        has_partial_eq(cseg) == c.config.cmp.partial_eq,
        has_eq(cseg) == c.config.cmp.eq,
        has_ord(cseg) == (c.config.cmp.ord && has_rank(c.fields@, false)),
        has_partial_ord_via_ord(cseg) == (c.config.cmp.ord && c.config.cmp.partial_ord
            && !has_rank(c.fields@, true)),
        has_partial_ord(cseg) == (c.config.cmp.partial_ord && !(c.config.cmp.ord && !has_rank(
            c.fields@,
            true,
        )) && has_rank(c.fields@, true)),
        forall|fam: OpsType, asn: bool|
            #[trigger] has_op(oseg, fam, asn) == covered(c.config.ops, fam, asn),
        member_kinds_unique(bseg),
        member_kinds_unique(cseg),
        member_kinds_unique(oseg),
    ensures
        forall|k: int|
            0 <= k < seq4(acc, bseg, cseg, oseg).len() ==> member_content_ok(
                #[trigger] seq4(acc, bseg, cseg, oseg)[k],
                c,
            ),
        forall|k: int|
            acc.len() <= k < seq4(acc, bseg, cseg, oseg).len() ==> !is_accessor_member(
                #[trigger] seq4(acc, bseg, cseg, oseg)[k],
            ),
        has_partial_default(seq4(acc, bseg, cseg, oseg)) == c.config.partial_default,
        has_runtime_default(seq4(acc, bseg, cseg, oseg)) == (c.config.generate_default
            && can_construct(c.fields@)),
        has_const_default(seq4(acc, bseg, cseg, oseg)) == (c.config.const_default
            && can_construct(c.fields@)),
        has_std_default(seq4(acc, bseg, cseg, oseg)) == (c.config.impl_std_default
            && can_construct(c.fields@)),
        has_debug(seq4(acc, bseg, cseg, oseg)) == c.config.manual_debug,
        has_partial_eq(seq4(acc, bseg, cseg, oseg)) == c.config.cmp.partial_eq,
        has_eq(seq4(acc, bseg, cseg, oseg)) == c.config.cmp.eq,
        has_ord(seq4(acc, bseg, cseg, oseg)) == (c.config.cmp.ord && has_rank(c.fields@, false)),
        has_partial_ord_via_ord(seq4(acc, bseg, cseg, oseg)) == (c.config.cmp.ord
            && c.config.cmp.partial_ord && !has_rank(c.fields@, true)),
        has_partial_ord(seq4(acc, bseg, cseg, oseg)) == (c.config.cmp.partial_ord && !(
        c.config.cmp.ord && !has_rank(c.fields@, true)) && has_rank(c.fields@, true)),
        forall|fam: OpsType, asn: bool|
            #[trigger] has_op(seq4(acc, bseg, cseg, oseg), fam, asn) == covered(
                c.config.ops,
                fam,
                asn,
            ),
        seq4(acc, bseg, cseg, oseg).subrange(0, acc.len() as int) == acc,
        member_kinds_unique(seq4(acc, bseg, cseg, oseg)),
        forall|k1: int, k2: int|
            0 <= k1 < k2 < seq4(acc, bseg, cseg, oseg).len() ==> member_group(
                #[trigger] seq4(acc, bseg, cseg, oseg)[k1],
            ) <= member_group(#[trigger] seq4(acc, bseg, cseg, oseg)[k2]),
{
    let ms = seq4(acc, bseg, cseg, oseg);
    let b0 = acc.len() as int;
    let c0 = b0 + bseg.len();
    let o0 = c0 + cseg.len();
    assert(ms.subrange(0, b0) =~= acc);
    assert forall|k: int| 0 <= k < ms.len() implies #[trigger] in_segment(
        ms,
        acc,
        bseg,
        cseg,
        oseg,
        k,
    ) by {
        if k < b0 {
            assert(ms[k] == acc[k]);
        } else if k < c0 {
            assert(ms[k] == bseg[k - b0]);
        } else if k < o0 {
            assert(ms[k] == cseg[k - c0]);
        } else {
            assert(ms[k] == oseg[k - o0]);
        }
    }
    assert forall|k: int| 0 <= k < ms.len() implies member_content_ok(#[trigger] ms[k], c) by {
        assert(in_segment(ms, acc, bseg, cseg, oseg, k));
    }
    assert forall|k1: int, k2: int| 0 <= k1 < k2 < ms.len() implies !same_singleton_kind(
        #[trigger] ms[k1],
        #[trigger] ms[k2],
    ) by {
        assert(in_segment(ms, acc, bseg, cseg, oseg, k1));
        assert(in_segment(ms, acc, bseg, cseg, oseg, k2));
    }
    assert forall|k1: int, k2: int| 0 <= k1 < k2 < ms.len() implies member_group(
        #[trigger] ms[k1],
    ) <= member_group(#[trigger] ms[k2]) by {
        assert(in_segment(ms, acc, bseg, cseg, oseg, k1));
        assert(in_segment(ms, acc, bseg, cseg, oseg, k2));
    }
    assert forall|k: int| acc.len() <= k < ms.len() implies !is_accessor_member(
        #[trigger] ms[k],
    ) by {
        assert(in_segment(ms, acc, bseg, cseg, oseg, k));
    }
    if c.config.partial_default {
        let k = choose|k: int| 0 <= k < bseg.len() && (#[trigger] bseg[k]) is PartialDefault;
        assert(ms[b0 + k] == bseg[k]);
    }
    if has_partial_default(ms) {
        let k = choose|k: int| 0 <= k < ms.len() && (#[trigger] ms[k]) is PartialDefault;
        assert(in_segment(ms, acc, bseg, cseg, oseg, k));
        assert(has_partial_default(bseg));
    }
    if c.config.generate_default && can_construct(c.fields@) {
        let k = choose|k: int| 0 <= k < bseg.len() && (#[trigger] bseg[k]) is RuntimeDefault;
        assert(ms[b0 + k] == bseg[k]);
    }
    if has_runtime_default(ms) {
        let k = choose|k: int| 0 <= k < ms.len() && (#[trigger] ms[k]) is RuntimeDefault;
        assert(in_segment(ms, acc, bseg, cseg, oseg, k));
        assert(has_runtime_default(bseg));
    }
    if c.config.const_default && can_construct(c.fields@) {
        let k = choose|k: int| 0 <= k < bseg.len() && (#[trigger] bseg[k]) is ConstDefault;
        assert(ms[b0 + k] == bseg[k]);
    }
    if has_const_default(ms) {
        let k = choose|k: int| 0 <= k < ms.len() && (#[trigger] ms[k]) is ConstDefault;
        assert(in_segment(ms, acc, bseg, cseg, oseg, k));
        assert(has_const_default(bseg));
    }
    if c.config.impl_std_default && can_construct(c.fields@) {
        let k = choose|k: int| 0 <= k < bseg.len() && (#[trigger] bseg[k]) is StdDefault;
        assert(ms[b0 + k] == bseg[k]);
    }
    if has_std_default(ms) {
        let k = choose|k: int| 0 <= k < ms.len() && (#[trigger] ms[k]) is StdDefault;
        assert(in_segment(ms, acc, bseg, cseg, oseg, k));
        assert(has_std_default(bseg));
    }
    if c.config.manual_debug {
        let k = choose|k: int| 0 <= k < bseg.len() && (#[trigger] bseg[k]) is DebugImpl;
        assert(ms[b0 + k] == bseg[k]);
    }
    if has_debug(ms) {
        let k = choose|k: int| 0 <= k < ms.len() && (#[trigger] ms[k]) is DebugImpl;
        assert(in_segment(ms, acc, bseg, cseg, oseg, k));
        assert(has_debug(bseg));
    }
    if c.config.cmp.partial_eq {
        let k = choose|k: int| 0 <= k < cseg.len() && (#[trigger] cseg[k]) is PartialEqImpl;
        assert(ms[c0 + k] == cseg[k]);
    }
    if has_partial_eq(ms) {
        let k = choose|k: int| 0 <= k < ms.len() && (#[trigger] ms[k]) is PartialEqImpl;
        assert(in_segment(ms, acc, bseg, cseg, oseg, k));
        assert(has_partial_eq(cseg));
    }
    if c.config.cmp.eq {
        let k = choose|k: int| 0 <= k < cseg.len() && (#[trigger] cseg[k]) is EqImpl;
        assert(ms[c0 + k] == cseg[k]);
    }
    if has_eq(ms) {
        let k = choose|k: int| 0 <= k < ms.len() && (#[trigger] ms[k]) is EqImpl;
        assert(in_segment(ms, acc, bseg, cseg, oseg, k));
        assert(has_eq(cseg));
    }
    if c.config.cmp.ord && has_rank(c.fields@, false) {
        let k = choose|k: int| 0 <= k < cseg.len() && (#[trigger] cseg[k]) is OrdImpl;
        assert(ms[c0 + k] == cseg[k]);
    }
    if has_ord(ms) {
        let k = choose|k: int| 0 <= k < ms.len() && (#[trigger] ms[k]) is OrdImpl;
        assert(in_segment(ms, acc, bseg, cseg, oseg, k));
        assert(has_ord(cseg));
    }
    if c.config.cmp.ord && c.config.cmp.partial_ord && !has_rank(c.fields@, true) {
        let k = choose|k: int| 0 <= k < cseg.len() && (#[trigger] cseg[k]) is PartialOrdViaOrd;
        assert(ms[c0 + k] == cseg[k]);
    }
    if has_partial_ord_via_ord(ms) {
        let k = choose|k: int| 0 <= k < ms.len() && (#[trigger] ms[k]) is PartialOrdViaOrd;
        assert(in_segment(ms, acc, bseg, cseg, oseg, k));
        assert(has_partial_ord_via_ord(cseg));
    }
    if c.config.cmp.partial_ord && !(c.config.cmp.ord && !has_rank(c.fields@, true)) && has_rank(
        c.fields@,
        true,
    ) {
        let k = choose|k: int| 0 <= k < cseg.len() && (#[trigger] cseg[k]) is PartialOrdImpl;
        assert(ms[c0 + k] == cseg[k]);
    }
    if has_partial_ord(ms) {
        let k = choose|k: int| 0 <= k < ms.len() && (#[trigger] ms[k]) is PartialOrdImpl;
        assert(in_segment(ms, acc, bseg, cseg, oseg, k));
        assert(has_partial_ord(cseg));
    }
    assert forall|fam: OpsType, asn: bool| #[trigger] has_op(ms, fam, asn) == covered(
        c.config.ops,
        fam,
        asn,
    ) by {
        if covered(c.config.ops, fam, asn) {
            assert(has_op(oseg, fam, asn));
            let k = choose|k: int|
                0 <= k < oseg.len() && ((#[trigger] oseg[k]) matches PlanMember::OpImpl {
                    family,
                    assign,
                    ..
                } && family == fam && assign == asn);
            assert(in_segment(ms, acc, bseg, cseg, oseg, o0 + k));
            assert(ms[o0 + k] == oseg[k]);
            assert(has_op(ms, fam, asn));
        } else if has_op(ms, fam, asn) {
            let k = choose|k: int|
                0 <= k < ms.len() && ((#[trigger] ms[k]) matches PlanMember::OpImpl {
                    family,
                    assign,
                    ..
                } && family == fam && assign == asn);
            assert(in_segment(ms, acc, bseg, cseg, oseg, k));
            assert(has_op(oseg, fam, asn));
        }
    }
}

/// For one resolved structure, the runtime, constant and standard default
/// members of a plan construct identical field-by-field values: each binds
/// exactly the resolved default expressions, in resolved order.
pub proof fn lemma_default_modes_agree(c: RichStructContent, m1: PlanMember, m2: PlanMember)
    requires
        member_content_ok(m1, c),
        member_content_ok(m2, c),
        m1 is RuntimeDefault || m1 is ConstDefault || m1 is StdDefault,
        m2 is RuntimeDefault || m2 is ConstDefault || m2 is StdDefault,
    ensures
        crate::plan::default_member_bindings(m1) == crate::plan::default_member_bindings(m2),
        crate::plan::default_member_bindings(m1) == default_bindings_spec(c.fields@),
{
}

/// The member at one position equals its group's member there.
pub open spec fn in_segment(
    ms: Seq<PlanMember>,
    acc: Seq<PlanMember>,
    bseg: Seq<PlanMember>,
    cseg: Seq<PlanMember>,
    oseg: Seq<PlanMember>,
    k: int,
) -> bool {
    if k < acc.len() {
        ms[k] == acc[k]
    } else if k < acc.len() + bseg.len() {
        ms[k] == bseg[k - acc.len()]
    } else if k < acc.len() + bseg.len() + cseg.len() {
        ms[k] == cseg[k - acc.len() - bseg.len()]
    } else {
        ms[k] == oseg[k - acc.len() - bseg.len() - cseg.len()]
    }
}

impl RichStructContent {
    /// The construction, default and debug members the structure's policy
    /// asks for, in order: the partial constructor, the three default
    /// constructors where every field has a default, and the debug
    /// formatter.
    fn base_members(&self) -> (r: Vec<PlanMember>)
        ensures
            forall|k: int|
                0 <= k < r@.len() ==> is_base_member(#[trigger] r@[k]) && member_content_ok(
                    r@[k],
                    *self,
                ),
            has_partial_default(r@) == self.config.partial_default,
            has_runtime_default(r@) == (self.config.generate_default && can_construct(
                self.fields@,
            )),
            has_const_default(r@) == (self.config.const_default && can_construct(self.fields@)),
            has_std_default(r@) == (self.config.impl_std_default && can_construct(self.fields@)),
            has_debug(r@) == self.config.manual_debug,
            member_kinds_unique(r@),
    {
        let mut ms: Vec<PlanMember> = Vec::new();
        let can = self.can_impl_default();
        let ghost mut pd_at: int = 0;
        let ghost mut rt_at: int = 0;
        let ghost mut cd_at: int = 0;
        let ghost mut sd_at: int = 0;
        let ghost mut db_at: int = 0;
        if self.config.partial_default {
            ms.push(
                PlanMember::PartialDefault {
                    params: self.partial_params_vec(),
                    bindings: self.impl_default_construct(),
                    field_order: self.idents_vec(),
                },
            );
            proof {
                pd_at = ms@.len() - 1;
            }
        }
        if can && self.config.generate_default {
            ms.push(PlanMember::RuntimeDefault { bindings: self.impl_default_construct() });
            proof {
                rt_at = ms@.len() - 1;
            }
        }
        if can && self.config.const_default {
            ms.push(PlanMember::ConstDefault { bindings: self.impl_default_construct() });
            proof {
                cd_at = ms@.len() - 1;
            }
        }
        if can && self.config.impl_std_default {
            ms.push(PlanMember::StdDefault { bindings: self.impl_default_construct() });
            proof {
                sd_at = ms@.len() - 1;
            }
        }
        if self.config.manual_debug {
            ms.push(
                PlanMember::DebugImpl {
                    name: self.ident.clone(),
                    fields: self.debug_fields_vec(),
                },
            );
            proof {
                db_at = ms@.len() - 1;
            }
        }
        proof {
            if self.config.partial_default {
                assert(ms@[pd_at] is PartialDefault);
            }
            if can && self.config.generate_default {
                assert(ms@[rt_at] is RuntimeDefault);
            }
            if can && self.config.const_default {
                assert(ms@[cd_at] is ConstDefault);
            }
            if can && self.config.impl_std_default {
                assert(ms@[sd_at] is StdDefault);
            }
            if self.config.manual_debug {
                assert(ms@[db_at] is DebugImpl);
            }
        }
        ms
    }

    /// Assembles the synthesis plan: each field's accessors and helpers,
    /// the partial constructor, the default constructors, the debug
    /// formatter, and the comparison and arithmetic members.  A full
    /// default mode requested while some field lacks a default expression
    /// is a failure; the partial constructor tolerates missing defaults
    /// per-field.  The plan comes back only if nothing was wrong; else
    /// every failure of the whole pass comes back together.
    #[verifier::rlimit(100)]
    #[verifier::loop_isolation(false)]
    pub fn to_impl(&self) -> (r: Result<SynthesisPlan, CompoundError>)
        ensures
            ({
                let fs = self.fields@;
                let synth_diags = missing_default_diags(*self) + cmp_synth_diags(*self)
                    + ops_synth_diags(*self);
                match r {
                    Ok(plan) => {
                        let ms = plan.members@;
                        let acc = accessors_spec(fs);
                        &&& synth_diags.len() == 0
                        &&& plan.field_order@ == idents_spec(fs)
                        &&& ms.len() >= acc.len()
                        &&& ms.subrange(0, acc.len() as int) == acc
                        &&& forall|k: int|
                            acc.len() <= k < ms.len() ==> !is_accessor_member(#[trigger] ms[k])
                        &&& forall|k: int|
                            0 <= k < ms.len() ==> member_content_ok(#[trigger] ms[k], *self)
                        &&& has_partial_default(ms) == self.config.partial_default
                        &&& has_runtime_default(ms) == (self.config.generate_default
                            && can_construct(fs))
                        &&& has_const_default(ms) == (self.config.const_default && can_construct(
                            fs,
                        ))
                        &&& has_std_default(ms) == (self.config.impl_std_default && can_construct(
                            fs,
                        ))
                        &&& has_debug(ms) == self.config.manual_debug
                        &&& has_partial_eq(ms) == self.config.cmp.partial_eq
                        &&& has_eq(ms) == self.config.cmp.eq
                        &&& has_ord(ms) == (self.config.cmp.ord && has_rank(fs, false))
                        &&& has_partial_ord_via_ord(ms) == (self.config.cmp.ord
                            && self.config.cmp.partial_ord && !has_rank(fs, true))
                        &&& has_partial_ord(ms) == (self.config.cmp.partial_ord
                            && !(self.config.cmp.ord && !has_rank(fs, true)) && has_rank(
                            fs,
                            true,
                        ))
                        &&& forall|fam: OpsType, asn: bool|
                            #[trigger] has_op(ms, fam, asn) == covered(self.config.ops, fam, asn)
                        &&& member_kinds_unique(ms)
                        &&& forall|k1: int, k2: int|
                            0 <= k1 < k2 < ms.len() ==> member_group(#[trigger] ms[k1])
                                <= member_group(#[trigger] ms[k2])
                    },
                    Err(e) => {
                        &&& synth_diags.len() > 0
                        &&& e.wf()
                        &&& e.diags@ == synth_diags
                    },
                }
            }),
    {
        let ghost fs = self.fields@;
        let mut members: Vec<PlanMember> = Vec::new();
        let n = self.fields.len();
        for i in 0..n
            invariant
                members@ == accessors_upto(fs, i as int),
        {
            let mut code = self.fields[i].generate_impl_code();
            members.append(&mut code);
            proof {
                assert(accessors_upto(fs, i + 1) == accessors_upto(fs, i as int)
                    + field_members_spec(fs[i as int]));
            }
        }
        let ghost acc = accessors_spec(fs);
        let ghost acc_len = members@.len() as int;
        proof {
            lemma_accessors_all_accessor(fs, fs.len() as int);
        }
        let mut bm = self.base_members();
        let ghost bseg = bm@;
        members.append(&mut bm);
        let mut diags: Vec<Diag> = Vec::new();
        if (self.config.generate_default || self.config.const_default
            || self.config.impl_std_default) && !self.can_impl_default() {
            diags.push(Diag { kind: DiagKind::MissingDefaultForModeError, span: self.span });
        }
        let (mut cm, mut cds) = StructCmpConfig::impl_cmp(self);
        let ghost cseg = cm@;
        members.append(&mut cm);
        let (mut om, mut ods) = StructOpsConfig::impl_ops(self);
        let ghost oseg = om@;
        members.append(&mut om);
        diags.append(&mut cds);
        diags.append(&mut ods);
        let field_order = self.idents_vec();
        proof {
            let ms = members@;
            assert(diags@ =~= missing_default_diags(*self) + cmp_synth_diags(*self)
                + ops_synth_diags(*self));
            assert(ms =~= seq4(acc, bseg, cseg, oseg));
            assert forall|k: int| 0 <= k < cseg.len() implies is_cmp_member(#[trigger] cseg[k])
                && member_content_ok(cseg[k], *self) by {}
            assert forall|k: int| 0 <= k < oseg.len() implies (#[trigger] oseg[k]) is OpImpl
                && member_content_ok(oseg[k], *self) by {}
            lemma_to_impl_compose(*self, acc, bseg, cseg, oseg);
            assert(ms.subrange(0, acc.len() as int) =~= acc);
        }
        if diags.len() == 0 {
            Ok(SynthesisPlan { members, field_order })
        } else {
            Err(CompoundError { diags })
        }
    }

    /// Resolves a whole declaration: the structure's policy, then every
    /// field under its defaults, then the stable reordering of the fields
    /// by effective rank.  The resolved content comes back only if nothing
    /// failed anywhere; else every failure, of the structure and of every
    /// field, comes back together.
    pub fn from_syntax(decl: StructDecl) -> (r: Result<RichStructContent, CompoundError>)
        requires
            decl.wf(),
        ensures
            ({
                match r {
                    Ok(c) => {
                        &&& resolution_diags(decl).len() == 0
                        &&& c.config == resolved_struct_config(decl)
                        &&& c.ident == decl.ident
                        &&& c.span == decl.span
                        &&& fields_resolved_sorted(c.fields@, decl)
                    },
                    Err(e) => {
                        &&& resolution_diags(decl).len() > 0
                        &&& e.wf()
                        &&& e.diags@ == resolution_diags(decl)
                    },
                }
            }),
    {
        let ghost d = decl;
        let StructDecl { ident, entries, mut fields, span } = decl;
        let n = fields.len();
        let (scfg, mut diags) = StructConfig::resolve(&entries, span);
        let mut input: Vec<(i64, usize, StructFieldContent)> = Vec::new();
        let mut i: usize = 0;
        proof {
            assert(d.fields@.skip(0) =~= fields@);
        }
        while i < n
            invariant
                i <= n,
                n == d.fields@.len(),
                d.wf(),
                fields@ =~= d.fields@.skip(i as int),
                scfg == resolved_struct_config(d),
                diags@ == struct_config_spec(d.entries@, d.span).1 + fields_diags_upto(
                    d,
                    i as int,
                ),
                input@.len() == i,
                forall|j: int|
                    0 <= j < i ==> #[trigger] input@[j] == (
                        eff_key(resolved_field(d, j)),
                        j as usize,
                        resolved_field(d, j),
                    ),
            decreases n - i,
        {
            proof {
                assert(d.fields@.skip(i as int)[0] == d.fields@[i as int]);
                assert(d.fields@.skip(i as int).subrange(
                    1,
                    d.fields@.skip(i as int).len() as int,
                ) =~= d.fields@.skip(i + 1));
            }
            let f = fields.remove(0);
            let (content, mut ds) = StructFieldContent::resolve(
                f,
                i,
                scfg.override_auto_set,
                scfg.override_auto_get,
            );
            diags.append(&mut ds);
            proof {
                assert(fields_diags_upto(d, i + 1) == fields_diags_upto(d, i as int)
                    + field_diags(d, i as int));
                assert(diags@ =~= struct_config_spec(d.entries@, d.span).1 + fields_diags_upto(
                    d,
                    i + 1,
                ));
            }
            let key: i64 = match content.config.init_seq {
                Some(k) => k,
                None => i as i64,
            };
            proof {
                assert(key == eff_key(resolved_field(d, i as int)));
            }
            input.push((key, i, content));
            i += 1;
        }
        let mut sorted = sort_stable_indexed(input);
        let ghost sorted0 = sorted@;
        let mut ordered: Vec<StructFieldContent> = Vec::new();
        proof {
            assert(sorted0.subrange(0, sorted0.len() as int) =~= sorted0);
        }
        while sorted.len() > 0
            invariant
                sorted@ =~= sorted0.subrange(0, sorted@.len() as int),
                ordered@.len() == sorted0.len() - sorted@.len(),
                forall|j: int|
                    0 <= j < ordered@.len() ==> #[trigger] ordered@[j] == sorted0[sorted@.len()
                        + j].2,
            decreases sorted@.len(),
        {
            let ghost before = sorted@;
            let t = sorted.pop().unwrap();
            proof {
                assert(before.drop_last() =~= sorted0.subrange(0, sorted@.len() as int));
            }
            ordered.insert(0, t.2);
        }
        proof {
            assert(ordered@.len() == sorted0.len());
            assert(fields_diags_upto(d, n as int) == fields_diags_upto(
                d,
                d.fields@.len() as int,
            ));
            assert(fields_resolved_sorted(ordered@, d)) by {
                assert forall|j: int| 0 <= j < ordered@.len() implies (#[trigger] ordered@[j]).decl_index
                    < ordered@.len() && ordered@[j] == resolved_field(
                    d,
                    ordered@[j].decl_index as int,
                ) by {
                    assert(ordered@[j] == sorted0[j].2);
                    let k = sorted0[j].1;
                    assert(input@[k as int].2 == resolved_field(d, k as int));
                    assert(resolved_field(d, k as int).decl_index == k);
                }
                assert forall|k: int| 0 <= k < ordered@.len() implies #[trigger] decl_index_appears(
                    ordered@,
                    k,
                ) by {
                    assert(position_appears(sorted0, k));
                    let j = choose|j: int|
                        0 <= j < sorted0.len() && (#[trigger] sorted0[j]).1 == k;
                    assert(ordered@[j] == sorted0[j].2);
                    assert(ordered@[j].decl_index == k);
                }
                assert forall|j1: int, j2: int| 0 <= j1 < j2 < ordered@.len() implies (eff_key(
                    ordered@[j1],
                ) < eff_key(ordered@[j2]) || (eff_key(ordered@[j1]) == eff_key(ordered@[j2])
                    && ordered@[j1].decl_index < ordered@[j2].decl_index)) by {
                    assert(ordered@[j1] == sorted0[j1].2);
                    assert(ordered@[j2] == sorted0[j2].2);
                    let k1 = sorted0[j1].1;
                    let k2 = sorted0[j2].1;
                    assert(input@[k1 as int].0 == eff_key(resolved_field(d, k1 as int)));
                    assert(input@[k2 as int].0 == eff_key(resolved_field(d, k2 as int)));
                }
            }
        }
        pass_outcome(
            RichStructContent { config: scfg, ident, fields: ordered, span },
            diags,
        )
    }
}

} // verus!
