//! The synthesis plan: the renderer-ready description of every generated
//! member, and the abstract meaning of the comparison members.

use vstd::prelude::*;

use crate::ops::OpsType;

verus! {

/// One construction binding: the field and the snippet its value comes from.
#[derive(Debug, PartialEq, Eq)]
pub struct Binding {
    pub field: String,
    pub expr: String,
}

/// What one field contributes to one arithmetic member.
#[derive(Debug, PartialEq, Eq)]
pub enum OpTerm {
    /// The left operand's value, unchanged.
    Keep,
    /// The family's native operator between both operands' field.
    Native,
    /// A user template, its placeholders already substituted.
    Template(String),
}

/// One field's part of an arithmetic member.
#[derive(Debug, PartialEq, Eq)]
pub struct FieldOp {
    pub field: String,
    pub term: OpTerm,
}

/// One generated member.
#[derive(Debug, PartialEq, Eq)]
pub enum PlanMember {
    /// The borrowing accessor of a field.
    Getter { field: String },
    /// The moving accessor of a field.
    MoveGetter { field: String },
    /// The plain setter of a field.
    Setter { field: String },
    /// The chaining setter of a field.
    WithSetter { field: String },
    /// The helper that runs a closure on a borrowed field.
    DoWith { field: String },
    /// The helper that maps a field through a closure.
    MapWith { field: String },
    /// The partial constructor: the fields without defaults become
    /// parameters, the rest internal bindings, and the structure is then
    /// built.  Parameters, bindings and construction all follow the
    /// resolved order, not the declaration order; the two differ only when
    /// explicit ranks reorder the fields.
    PartialDefault { params: Vec<String>, bindings: Vec<Binding>, field_order: Vec<String> },
    /// The library's runtime default constructor.
    RuntimeDefault { bindings: Vec<Binding> },
    /// The compile-time constant default.
    ConstDefault { bindings: Vec<Binding> },
    /// The standard default implementation.
    StdDefault { bindings: Vec<Binding> },
    /// The debug formatter, showing only the visible fields.
    DebugImpl { name: String, fields: Vec<String> },
    /// Partial equality: the conjunction of the listed fields' equalities;
    /// an empty list compares everything equal.
    PartialEqImpl { fields: Vec<String> },
    /// The marker coupling full equality to partial equality.
    EqImpl,
    /// Total ordering: the listed fields' comparisons chained in order,
    /// first difference wins.
    OrdImpl { chain: Vec<String> },
    /// Partial ordering: the listed fields' partial comparisons chained in
    /// order; an absent comparison makes the whole result absent.
    PartialOrdImpl { chain: Vec<String> },
    /// Partial ordering defined as the total ordering's result, present for
    /// every pair.
    PartialOrdViaOrd,
    /// One arithmetic member: a family in its plain or its in-place form.
    /// The plain form lists every field; the in-place form omits the kept
    /// ones.
    OpImpl { family: OpsType, assign: bool, fields: Vec<FieldOp> },
}

/// The plan of every member to generate for one structure, and the resolved
/// field order its constructors evaluate in.
#[derive(Debug, PartialEq, Eq)]
pub struct SynthesisPlan {
    pub members: Vec<PlanMember>,
    pub field_order: Vec<String>,
}

/// Whether the member is an accessor, mutator or closure helper.
pub open spec fn is_accessor_member(m: PlanMember) -> bool {
    ||| m is Getter
    ||| m is MoveGetter
    ||| m is Setter
    ||| m is WithSetter
    ||| m is DoWith
    ||| m is MapWith
}

/// Whether the member belongs to the comparison group.
pub open spec fn is_cmp_member(m: PlanMember) -> bool {
    ||| m is PartialEqImpl
    ||| m is EqImpl
    ||| m is OrdImpl
    ||| m is PartialOrdImpl
    ||| m is PartialOrdViaOrd
}

/// Whether the member is a construction, default or debug member.
pub open spec fn is_base_member(m: PlanMember) -> bool {
    ||| m is PartialDefault
    ||| m is RuntimeDefault
    ||| m is ConstDefault
    ||| m is StdDefault
    ||| m is DebugImpl
}

/// The group a member renders in: the accessors first, then the
/// construction and debug members, then the comparisons, then the
/// arithmetic members.
pub open spec fn member_group(m: PlanMember) -> int {
    if is_accessor_member(m) {
        0
    } else if is_base_member(m) {
        1
    } else if is_cmp_member(m) {
        2
    } else {
        3
    }
}

/// Some member is the partial constructor.
pub open spec fn has_partial_default(ms: Seq<PlanMember>) -> bool {
    exists|k: int| 0 <= k < ms.len() && (#[trigger] ms[k]) is PartialDefault
}

/// Some member is the runtime default constructor.
pub open spec fn has_runtime_default(ms: Seq<PlanMember>) -> bool {
    exists|k: int| 0 <= k < ms.len() && (#[trigger] ms[k]) is RuntimeDefault
}

/// Some member is the constant default.
pub open spec fn has_const_default(ms: Seq<PlanMember>) -> bool {
    exists|k: int| 0 <= k < ms.len() && (#[trigger] ms[k]) is ConstDefault
}

/// Some member is the standard default implementation.
pub open spec fn has_std_default(ms: Seq<PlanMember>) -> bool {
    exists|k: int| 0 <= k < ms.len() && (#[trigger] ms[k]) is StdDefault
}

/// Some member is the debug formatter.
pub open spec fn has_debug(ms: Seq<PlanMember>) -> bool {
    exists|k: int| 0 <= k < ms.len() && (#[trigger] ms[k]) is DebugImpl
}

/// Some member is the partial equality implementation.
pub open spec fn has_partial_eq(ms: Seq<PlanMember>) -> bool {
    exists|k: int| 0 <= k < ms.len() && (#[trigger] ms[k]) is PartialEqImpl
}

/// Some member is the full equality marker.
pub open spec fn has_eq(ms: Seq<PlanMember>) -> bool {
    exists|k: int| 0 <= k < ms.len() && (#[trigger] ms[k]) is EqImpl
}

/// Some member is the total ordering implementation.
pub open spec fn has_ord(ms: Seq<PlanMember>) -> bool {
    exists|k: int| 0 <= k < ms.len() && (#[trigger] ms[k]) is OrdImpl
}

/// Some member is an independent partial ordering chain.
pub open spec fn has_partial_ord(ms: Seq<PlanMember>) -> bool {
    exists|k: int| 0 <= k < ms.len() && (#[trigger] ms[k]) is PartialOrdImpl
}

/// Some member defines the partial ordering through the total one.
pub open spec fn has_partial_ord_via_ord(ms: Seq<PlanMember>) -> bool {
    exists|k: int| 0 <= k < ms.len() && (#[trigger] ms[k]) is PartialOrdViaOrd
}

/// Some member is the given family's implementation in the given form.
pub open spec fn has_op(ms: Seq<PlanMember>, fam: OpsType, asn: bool) -> bool {
    exists|k: int|
        0 <= k < ms.len() && ((#[trigger] ms[k]) matches PlanMember::OpImpl {
            family,
            assign,
            ..
        } && family == fam && assign == asn)
}

/// Whether two members are of one kind that a plan holds at most once: the
/// constructors, the debug formatter, the comparison members, and each
/// family-and-form arithmetic member.
pub open spec fn same_singleton_kind(a: PlanMember, b: PlanMember) -> bool {
    ||| (a is PartialDefault && b is PartialDefault)
    ||| (a is RuntimeDefault && b is RuntimeDefault)
    ||| (a is ConstDefault && b is ConstDefault)
    ||| (a is StdDefault && b is StdDefault)
    ||| (a is DebugImpl && b is DebugImpl)
    ||| (a is PartialEqImpl && b is PartialEqImpl)
    ||| (a is EqImpl && b is EqImpl)
    ||| (a is OrdImpl && b is OrdImpl)
    ||| (a is PartialOrdImpl && b is PartialOrdImpl)
    ||| (a is PartialOrdViaOrd && b is PartialOrdViaOrd)
    ||| (a matches PlanMember::OpImpl { family: f1, assign: a1, .. } && b
        matches PlanMember::OpImpl { family: f2, assign: a2, .. } && f1 == f2 && a1 == a2)
}

/// No singleton kind appears twice.
pub open spec fn member_kinds_unique(ms: Seq<PlanMember>) -> bool {
    forall|k1: int, k2: int|
        0 <= k1 < k2 < ms.len() ==> !same_singleton_kind(#[trigger] ms[k1], #[trigger] ms[k2])
}

/// A three-way comparison outcome.
#[derive(Debug, Clone, Copy, PartialEq, Eq, Structural)]
pub enum Ordering3 {
    Less,
    Equal,
    Greater,
}

/// The three-way comparison of two integers.
pub open spec fn cmp_int(a: int, b: int) -> Ordering3 {
    if a < b {
        Ordering3::Less
    } else if a == b {
        Ordering3::Equal
    } else {
        Ordering3::Greater
    }
}

/// Chaining two outcomes: the first difference wins.
pub open spec fn then3(x: Ordering3, y: Ordering3) -> Ordering3 {
    if x is Equal {
        y
    } else {
        x
    }
}

/// What a total ordering chain means on instances whose fields hold
/// integers: compare along the chain, first difference wins.
pub open spec fn chain_cmp(chain: Seq<Seq<char>>, a: Map<Seq<char>, int>, b: Map<Seq<char>, int>)
    -> Ordering3
    decreases chain.len(),
{
    if chain.len() == 0 {
        Ordering3::Equal
    } else {
        then3(cmp_int(a[chain.first()], b[chain.first()]), chain_cmp(chain.drop_first(), a, b))
    }
}

/// What a partial ordering chain means on instances whose fields hold
/// integers, whose comparison is never absent: each link compares its field
/// and chains onto the rest; absence anywhere would make the whole result
/// absent.
pub open spec fn chain_partial_cmp(
    chain: Seq<Seq<char>>,
    a: Map<Seq<char>, int>,
    b: Map<Seq<char>, int>,
) -> Option<Ordering3>
    decreases chain.len(),
{
    if chain.len() == 0 {
        Some(Ordering3::Equal)
    } else {
        match chain_partial_cmp(chain.drop_first(), a, b) {
            Some(rest) => Some(then3(cmp_int(a[chain.first()], b[chain.first()]), rest)),
            None => None,
        }
    }
}

/// What a partial equality member means on instances whose fields hold
/// integers: every listed field agrees; an empty list holds of every pair.
pub open spec fn eq_fields_hold(
    fields: Seq<Seq<char>>,
    a: Map<Seq<char>, int>,
    b: Map<Seq<char>, int>,
) -> bool {
    forall|i: int| 0 <= i < fields.len() ==> a[#[trigger] fields[i]] == b[fields[i]]
}

/// Equality generation excludes a field marked out of it: two instances
/// that differ only in a field the equality member does not list still
/// compare equal.
pub proof fn lemma_eq_ignores_excluded(
    fields: Seq<Seq<char>>,
    excluded: Seq<char>,
    a: Map<Seq<char>, int>,
    b: Map<Seq<char>, int>,
)
    requires
        !fields.contains(excluded),
        forall|f: Seq<char>| f != excluded ==> a[f] == b[f],
    ensures
        eq_fields_hold(fields, a, b),
{
    assert forall|i: int| 0 <= i < fields.len() implies a[#[trigger] fields[i]] == b[
        fields[i]
    ] by {
        assert(fields[i] != excluded);
    }
}

/// The bindings a default-construction member carries.
pub open spec fn default_member_bindings(m: PlanMember) -> Seq<Binding> {
    match m {
        PlanMember::RuntimeDefault { bindings } => bindings@,
        PlanMember::ConstDefault { bindings } => bindings@,
        PlanMember::StdDefault { bindings } => bindings@,
        _ => Seq::empty(),
    }
}

/// What a partial-ordering member yields on instances whose fields hold
/// integers, given the total ordering chain standing beside it in the same
/// plan.
pub open spec fn partial_member_eval(
    m: PlanMember,
    ord_chain: Seq<Seq<char>>,
    a: Map<Seq<char>, int>,
    b: Map<Seq<char>, int>,
) -> Option<Ordering3> {
    match m {
        PlanMember::PartialOrdViaOrd => Some(chain_cmp(ord_chain, a, b)),
        PlanMember::PartialOrdImpl { chain } => chain_partial_cmp(
            chain@.map_values(|s: String| s@),
            a,
            b,
        ),
        _ => None,
    }
}

/// On instances whose fields hold integers, no comparison is absent, so a
/// partial ordering chain always yields exactly the total ordering chain's
/// outcome.
pub proof fn lemma_partial_chain_total(
    chain: Seq<Seq<char>>,
    a: Map<Seq<char>, int>,
    b: Map<Seq<char>, int>,
)
    ensures
        chain_partial_cmp(chain, a, b) == Some(chain_cmp(chain, a, b)),
    decreases chain.len(),
{
    if chain.len() > 0 {
        lemma_partial_chain_total(chain.drop_first(), a, b);
    }
}

/// When a plan holds no independent partial ordering chain, every
/// partial-ordering member it holds follows the total ordering: its outcome
/// on any pair of integer-valued instances is the total ordering chain's
/// outcome, always present.
pub proof fn lemma_pord_follows_ord(
    ms: Seq<PlanMember>,
    j: int,
    ord_chain: Seq<Seq<char>>,
    a: Map<Seq<char>, int>,
    b: Map<Seq<char>, int>,
)
    requires
        !has_partial_ord(ms),
        0 <= j < ms.len(),
        ms[j] is PartialOrdViaOrd || ms[j] is PartialOrdImpl,
    ensures
        partial_member_eval(ms[j], ord_chain, a, b) == Some(chain_cmp(ord_chain, a, b)),
{
    if ms[j] is PartialOrdImpl {
        assert(has_partial_ord(ms));
    }
}

} // verus!
