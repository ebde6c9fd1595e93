//! Comparison configuration: which comparison members a structure requests,
//! and how one field takes part in them.

use vstd::prelude::*;

use crate::generate::{RichStructContent, StructFieldContent};
use crate::meta::{collect_meta_map, collect_meta_set, map_items, set_diags, set_items, AttrEntry,
    LitVal, MapItem};
use crate::plan::{has_eq, has_ord, has_partial_eq, has_partial_ord, has_partial_ord_via_ord,
    is_cmp_member, member_kinds_unique, PlanMember};
use crate::sorting::{position_appears, sort_stable_indexed};
use crate::synerr::{Diag, DiagKind};
use crate::text::{name_is, parse_bool_str, parse_i64_str, spec_parse_bool, spec_parse_i64};

verus! {

/// Which comparison members the structure requests.
#[derive(Debug, Clone, Copy, PartialEq, Eq, Structural)]
pub struct StructCmpConfig {
    pub partial_eq: bool,
    pub eq: bool,
    pub partial_ord: bool,
    pub ord: bool,
}

impl StructCmpConfig {
    /// Nothing requested.
    pub open spec fn spec_default() -> Self {
        StructCmpConfig { partial_eq: false, eq: false, partial_ord: false, ord: false }
    }
}

impl Default for StructCmpConfig {
    /// Nothing requested.
    fn default() -> (r: Self)
        ensures
            r == StructCmpConfig::spec_default(),
    {
        StructCmpConfig { partial_eq: false, eq: false, partial_ord: false, ord: false }
    }
}

/// One step of the structure-level comparison switches: a recognized name
/// turns its switch on, anything else is an unknown key.
pub open spec fn struct_cmp_step(acc: (StructCmpConfig, Seq<Diag>), item: (String, u64)) -> (
    StructCmpConfig,
    Seq<Diag>,
) {
    let name = item.0@;
    if name == "eq"@ {
        (StructCmpConfig { eq: true, ..acc.0 }, acc.1)
    } else if name == "peq"@ || name == "partial_eq"@ {
        (StructCmpConfig { partial_eq: true, ..acc.0 }, acc.1)
    } else if name == "ord"@ || name == "cmp"@ {
        (StructCmpConfig { ord: true, ..acc.0 }, acc.1)
    } else if name == "partial_ord"@ || name == "pord"@ || name == "partial_cmp"@ || name
        == "pcmp"@ {
        (StructCmpConfig { partial_ord: true, ..acc.0 }, acc.1)
    } else {
        (acc.0, acc.1 + seq![Diag { kind: DiagKind::UnknownOptionError, span: item.1 }])
    }
}

/// The structure-level comparison switches folded over the recognized names
/// of one nested list, left to right.
pub open spec fn struct_cmp_fold(items: Seq<(String, u64)>, acc: (StructCmpConfig, Seq<Diag>)) -> (
    StructCmpConfig,
    Seq<Diag>,
)
    decreases items.len(),
{
    if items.len() == 0 {
        acc
    } else {
        struct_cmp_fold(items.drop_first(), struct_cmp_step(acc, items.first()))
    }
}

/// What one `cmp(...)` group at structure level resolves to, on top of the
/// switches already set: the shape diagnostics of the walk first, then the
/// fold of the recognized names.
pub open spec fn struct_cmp_group_spec(cfg: StructCmpConfig, entries: Seq<AttrEntry>) -> (
    StructCmpConfig,
    Seq<Diag>,
) {
    struct_cmp_fold(set_items(entries), (cfg, set_diags(entries)))
}

proof fn lemma_struct_cmp_fold_step(items: Seq<(String, u64)>, acc: (StructCmpConfig, Seq<Diag>), i: int)
    requires
        0 <= i < items.len(),
    ensures
        struct_cmp_fold(items.skip(i), acc) == struct_cmp_fold(
            items.skip(i + 1),
            struct_cmp_step(acc, items[i]),
        ),
{
    assert(items.skip(i).first() == items[i]);
    assert(items.skip(i).drop_first() =~= items.skip(i + 1));
}

impl StructCmpConfig {
    /// Applies one structure-level `cmp(...)` group to the switches gathered
    /// so far, reporting every failure of the walk.
    pub fn apply_group(self, entries: &Vec<AttrEntry>) -> (r: (StructCmpConfig, Vec<Diag>))
        ensures
            (r.0, r.1@) == struct_cmp_group_spec(self, entries@),
    {
        let (items, mut diags) = collect_meta_set(entries);
        let mut cfg = self;
        let ghost all = items@;
        let ghost goal = struct_cmp_fold(all, (self, diags@));
        proof {
            assert(all.skip(0) =~= all);
        }
        let n = items.len();
        for i in 0..n
            invariant
                n == all.len(),
                all == items@,
                goal == struct_cmp_fold(all.skip(i as int), (cfg, diags@)),
                goal == struct_cmp_group_spec(self, entries@),
        {
            let ghost acc0 = (cfg, diags@);
            proof {
                lemma_struct_cmp_fold_step(all, acc0, i as int);
            }
            let name = &items[i].0;
            let span = items[i].1;
            if name_is(name, "eq") {
                cfg.eq = true;
            } else if name_is(name, "peq") || name_is(name, "partial_eq") {
                cfg.partial_eq = true;
            } else if name_is(name, "ord") || name_is(name, "cmp") {
                cfg.ord = true;
            } else if name_is(name, "partial_ord") || name_is(name, "pord") || name_is(
                name,
                "partial_cmp",
            ) || name_is(name, "pcmp") {
                cfg.partial_ord = true;
            } else {
                diags.push(Diag { kind: DiagKind::UnknownOptionError, span });
            }
            proof {
                let stepped = struct_cmp_step(acc0, all[i as int]);
                assert(diags@ =~= stepped.1);
                assert(cfg == stepped.0);
            }
        }
        proof {
            assert(all.skip(n as int) =~= Seq::<(String, u64)>::empty());
        }
        (cfg, diags)
    }
}

/// The names of the fields equality looks at, in resolved order.
pub open spec fn eq_fields_spec(fs: Seq<StructFieldContent>) -> Seq<String>
    decreases fs.len(),
{
    if fs.len() == 0 {
        Seq::empty()
    } else {
        eq_fields_spec(fs.drop_last()) + (if fs.last().config.cmp.eq {
            seq![fs.last().ident]
        } else {
            Seq::empty()
        })
    }
}

/// The rank under which one field takes part in an ordering, if it takes
/// part at all.
pub open spec fn rank_of(fc: StructFieldContent, use_partial: bool) -> Option<i64> {
    if use_partial {
        fc.config.cmp.partial_ord
    } else {
        fc.config.cmp.ord
    }
}

/// The rank itself, where there is one.
pub open spec fn rank_val(fc: StructFieldContent, use_partial: bool) -> i64 {
    match rank_of(fc, use_partial) {
        Some(k) => k,
        None => 0,
    }
}

/// Some field takes part in the ordering.
pub open spec fn has_rank(fs: Seq<StructFieldContent>, use_partial: bool) -> bool {
    exists|i: int| 0 <= i < fs.len() && rank_of(#[trigger] fs[i], use_partial) is Some
}

/// The chain lists, through the given field positions, exactly the fields
/// that take part in the ordering, sorted by rank with the resolved
/// position breaking ties.
pub open spec fn is_ranked_chain_with(
    idxs: Seq<int>,
    chain: Seq<String>,
    fs: Seq<StructFieldContent>,
    use_partial: bool,
) -> bool {
    &&& idxs.len() == chain.len()
    &&& forall|j: int|
        0 <= j < idxs.len() ==> 0 <= #[trigger] idxs[j] < fs.len() && rank_of(
            fs[idxs[j]],
            use_partial,
        ) is Some && chain[j] == fs[idxs[j]].ident
    &&& forall|j1: int, j2: int|
        0 <= j1 < j2 < idxs.len() ==> (rank_val(fs[idxs[j1]], use_partial) < rank_val(
            fs[idxs[j2]],
            use_partial,
        ) || (rank_val(fs[idxs[j1]], use_partial) == rank_val(fs[idxs[j2]], use_partial)
            && idxs[j1] < idxs[j2]))
    &&& forall|i: int|
        0 <= i < fs.len() && rank_of(#[trigger] fs[i], use_partial) is Some ==> idxs.contains(i)
}

/// The chain is the participating fields' names, sorted stably by rank.
pub open spec fn is_ranked_chain(
    chain: Seq<String>,
    fs: Seq<StructFieldContent>,
    use_partial: bool,
) -> bool {
    exists|idxs: Seq<int>| is_ranked_chain_with(idxs, chain, fs, use_partial)
}

/// The comparison chain of the fields that take part in an ordering: their
/// names sorted stably by rank, or nothing when no field takes part.
#[verifier::loop_isolation(false)]
fn ranked_chain(fields: &Vec<StructFieldContent>, use_partial: bool) -> (r: Option<Vec<String>>)
    ensures
        match r {
            Some(chain) => has_rank(fields@, use_partial) && is_ranked_chain(
                chain@,
                fields@,
                use_partial,
            ),
            None => !has_rank(fields@, use_partial),
        },
{
    let mut parts: Vec<(i64, usize, (usize, String))> = Vec::new();
    let ghost mut fidx: Seq<int> = Seq::empty();
    let n = fields.len();
    for i in 0..n
        invariant
            parts@.len() == fidx.len(),
            forall|k: int|
                0 <= k < fidx.len() ==> 0 <= #[trigger] fidx[k] < i && rank_of(
                    fields@[fidx[k]],
                    use_partial,
                ) is Some && parts@[k].0 == rank_val(fields@[fidx[k]], use_partial) && parts@[k].1
                == k && parts@[k].2.0 == fidx[k] && parts@[k].2.1 == fields@[fidx[k]].ident,
            forall|k1: int, k2: int| 0 <= k1 < k2 < fidx.len() ==> fidx[k1] < fidx[k2],
            forall|k: int| 0 <= k < parts@.len() ==> (#[trigger] parts@[k]).1 == k,
            forall|j: int|
                0 <= j < i && rank_of(#[trigger] fields@[j], use_partial) is Some
                    ==> fidx.contains(j),
    {
        let rk_opt: Option<i64> = if use_partial {
            fields[i].config.cmp.partial_ord
        } else {
            fields[i].config.cmp.ord
        };
        if let Some(rk) = rk_opt {
            let k = parts.len();
            parts.push((rk, k, (i, fields[i].ident.clone())));
            proof {
                let fidx0 = fidx;
                fidx = fidx0.push(i as int);
                assert(fidx[fidx.len() - 1] == i as int);
                assert(fidx.contains(i as int));
                assert forall|j: int|
                    0 <= j < i + 1 && rank_of(#[trigger] fields@[j], use_partial)
                        is Some implies fidx.contains(j) by {
                    if j < i {
                        assert(fidx0.contains(j));
                        let k0 = choose|k0: int| 0 <= k0 < fidx0.len() && fidx0[k0] == j;
                        assert(fidx[k0] == j);
                    } else {
                        assert(fidx.contains(i as int));
                    }
                }
            }
        }
    }
    if parts.len() == 0 {
        proof {
            if has_rank(fields@, use_partial) {
                let i = choose|i: int|
                    0 <= i < fields@.len() && rank_of(#[trigger] fields@[i], use_partial)
                        is Some;
                assert(fidx.contains(i));
            }
        }
        return None;
    }
    let ghost parts0 = parts@;
    let sorted = sort_stable_indexed(parts);
    let mut chain: Vec<String> = Vec::new();
    let m = sorted.len();
    for j in 0..m
        invariant
            chain@.len() == j,
            forall|j0: int| 0 <= j0 < j ==> #[trigger] chain@[j0] == sorted@[j0].2.1,
    {
        chain.push(sorted[j].2.1.clone());
    }
    proof {
        let idxs = Seq::new(sorted@.len() as nat, |j: int| sorted@[j].2.0 as int);
        assert forall|j: int| 0 <= j < idxs.len() implies 0 <= #[trigger] idxs[j]
            < fields@.len() && rank_of(fields@[idxs[j]], use_partial) is Some && chain@[j]
            == fields@[idxs[j]].ident by {
            let k = sorted@[j].1;
            assert(sorted@[j] == parts0[k as int]);
            assert(idxs[j] == fidx[k as int]);
        }
        assert forall|j1: int, j2: int| 0 <= j1 < j2 < idxs.len() implies (rank_val(
            fields@[idxs[j1]],
            use_partial,
        ) < rank_val(fields@[idxs[j2]], use_partial) || (rank_val(fields@[idxs[j1]], use_partial)
            == rank_val(fields@[idxs[j2]], use_partial) && idxs[j1] < idxs[j2])) by {
            let k1 = sorted@[j1].1;
            let k2 = sorted@[j2].1;
            assert(sorted@[j1] == parts0[k1 as int]);
            assert(sorted@[j2] == parts0[k2 as int]);
            assert(parts0[k1 as int].2.0 == fidx[k1 as int]);
            assert(parts0[k2 as int].2.0 == fidx[k2 as int]);
            assert(parts0[k1 as int].0 == rank_val(fields@[fidx[k1 as int]], use_partial));
            assert(parts0[k2 as int].0 == rank_val(fields@[fidx[k2 as int]], use_partial));
        }
        assert forall|i: int|
            0 <= i < fields@.len() && rank_of(#[trigger] fields@[i], use_partial)
                is Some implies idxs.contains(i) by {
            assert(fidx.contains(i));
            let k = choose|k: int| 0 <= k < fidx.len() && fidx[k] == i;
            assert(position_appears(sorted@, k));
            let j = choose|j: int| 0 <= j < sorted@.len() && (#[trigger] sorted@[j]).1 == k;
            assert(sorted@[j] == parts0[k]);
            assert(idxs[j] == i);
        }
        assert(is_ranked_chain_with(idxs, chain@, fields@, use_partial));
        assert(is_ranked_chain(chain@, fields@, use_partial));
        assert(0 <= fidx[0] < fields@.len());
        assert(rank_of(fields@[fidx[0]], use_partial) is Some);
        assert(has_rank(fields@, use_partial));
    }
    Some(chain)
}

/// The ordering diagnostics of one structure: an ordering that was
/// requested while no field takes part in it.
pub open spec fn cmp_synth_diags(c: RichStructContent) -> Seq<Diag> {
    (if c.config.cmp.ord && !has_rank(c.fields@, false) {
        seq![Diag { kind: DiagKind::NoOrderableFieldError, span: c.span }]
    } else {
        Seq::empty()
    }) + (if c.config.cmp.partial_ord && !(c.config.cmp.ord && !has_rank(c.fields@, true))
        && !has_rank(c.fields@, true) {
        seq![Diag { kind: DiagKind::NoOrderableFieldError, span: c.span }]
    } else {
        Seq::empty()
    })
}

/// The names of the fields equality looks at, in resolved order.
fn eq_fields_vec(fields: &Vec<StructFieldContent>) -> (r: Vec<String>)
    ensures
        r@ == eq_fields_spec(fields@),
{
    let mut out: Vec<String> = Vec::new();
    let n = fields.len();
    for i in 0..n
        invariant
            n == fields@.len(),
            out@ == eq_fields_spec(fields@.subrange(0, i as int)),
    {
        proof {
            assert(fields@.subrange(0, i + 1).drop_last() =~= fields@.subrange(0, i as int));
            assert(fields@.subrange(0, i + 1).last() == fields@[i as int]);
        }
        if fields[i].config.cmp.eq {
            out.push(fields[i].ident.clone());
        }
    }
    proof {
        assert(fields@.subrange(0, n as int) =~= fields@);
    }
    out
}

impl StructCmpConfig {
    /// The comparison members a resolved structure asks for: partial
    /// equality over its participating fields, the equality marker, and the
    /// ordering chains, each stably sorted by rank.  An ordering requested
    /// with no participating field is reported; when both orderings are
    /// requested and no field ranks the partial one, the partial ordering
    /// follows the total one instead of a chain of its own.
    pub fn impl_cmp(content: &RichStructContent) -> (r: (Vec<PlanMember>, Vec<Diag>))
        ensures
            r.1@ == cmp_synth_diags(*content),
            forall|k: int| 0 <= k < r.0@.len() ==> is_cmp_member(#[trigger] r.0@[k]),
            forall|k: int|
                0 <= k < r.0@.len() ==> match #[trigger] r.0@[k] {
                    PlanMember::PartialEqImpl { fields } => fields@ == eq_fields_spec(
                        content.fields@,
                    ),
                    PlanMember::OrdImpl { chain } => is_ranked_chain(
                        chain@,
                        content.fields@,
                        false,
                    ),
                    PlanMember::PartialOrdImpl { chain } => is_ranked_chain(
                        chain@,
                        content.fields@,
                        true,
                    ),
                    _ => true,
                },
            has_partial_eq(r.0@) == content.config.cmp.partial_eq,
            has_eq(r.0@) == content.config.cmp.eq,
            has_ord(r.0@) == (content.config.cmp.ord && has_rank(content.fields@, false)),
            has_partial_ord_via_ord(r.0@) == (content.config.cmp.ord
                && content.config.cmp.partial_ord && !has_rank(content.fields@, true)),
            has_partial_ord(r.0@) == (content.config.cmp.partial_ord && !(content.config.cmp.ord
                && !has_rank(content.fields@, true)) && has_rank(content.fields@, true)),
            member_kinds_unique(r.0@),
    {
        let mut ms: Vec<PlanMember> = Vec::new();
        let mut diags: Vec<Diag> = Vec::new();
        let ghost mut pe_at: int = 0;
        let ghost mut eq_at: int = 0;
        let ghost mut ord_at: int = 0;
        let ghost mut via_at: int = 0;
        let ghost mut pord_at: int = 0;
        if content.config.cmp.partial_eq {
            ms.push(PlanMember::PartialEqImpl { fields: eq_fields_vec(&content.fields) });
            proof {
                pe_at = ms@.len() - 1;
            }
        }
        if content.config.cmp.eq {
            ms.push(PlanMember::EqImpl);
            proof {
                eq_at = ms@.len() - 1;
            }
        }
        let ghost ord_built = content.config.cmp.ord && has_rank(content.fields@, false);
        if content.config.cmp.ord {
            match ranked_chain(&content.fields, false) {
                Some(chain) => {
                    ms.push(PlanMember::OrdImpl { chain });
                    proof {
                        ord_at = ms@.len() - 1;
                    }
                },
                None => {
                    diags.push(
                        Diag { kind: DiagKind::NoOrderableFieldError, span: content.span },
                    );
                },
            }
        }
        let pchain = ranked_chain(&content.fields, true);
        let ghost via_built = content.config.cmp.ord && content.config.cmp.partial_ord
            && !has_rank(content.fields@, true);
        let ghost pord_built = content.config.cmp.partial_ord && !(content.config.cmp.ord
            && !has_rank(content.fields@, true)) && has_rank(content.fields@, true);
        if content.config.cmp.ord && content.config.cmp.partial_ord && pchain.is_none() {
            ms.push(PlanMember::PartialOrdViaOrd);
            proof {
                via_at = ms@.len() - 1;
            }
        } else if content.config.cmp.partial_ord {
            match pchain {
                Some(chain) => {
                    ms.push(PlanMember::PartialOrdImpl { chain });
                    proof {
                        pord_at = ms@.len() - 1;
                    }
                },
                None => {
                    diags.push(
                        Diag { kind: DiagKind::NoOrderableFieldError, span: content.span },
                    );
                },
            }
        }
        proof {
            assert(diags@ =~= cmp_synth_diags(*content));
            if content.config.cmp.partial_eq {
                assert(ms@[pe_at] is PartialEqImpl);
            }
            if content.config.cmp.eq {
                assert(ms@[eq_at] is EqImpl);
            }
            if ord_built {
                assert(ms@[ord_at] is OrdImpl);
            }
            if via_built {
                assert(ms@[via_at] is PartialOrdViaOrd);
            }
            if pord_built {
                assert(ms@[pord_at] is PartialOrdImpl);
            }
        }
        (ms, diags)
    }
}

/// How one field takes part in the comparison members: whether equality
/// looks at it, and its rank in the total and the partial ordering chains,
/// if it takes part in them at all.
#[derive(Debug, Clone, Copy, PartialEq, Eq)]
pub struct FieldCmpConfig {
    pub eq: bool,
    pub ord: Option<i64>,
    pub partial_ord: Option<i64>,
}

impl FieldCmpConfig {
    /// Equality looks at the field; it takes part in no ordering.
    pub open spec fn spec_default() -> Self {
        FieldCmpConfig { eq: true, ord: None, partial_ord: None }
    }
}

impl Default for FieldCmpConfig {
    /// Equality looks at the field; it takes part in no ordering.
    fn default() -> (r: Self)
        ensures
            r == FieldCmpConfig::spec_default(),
    {
        FieldCmpConfig { eq: true, ord: None, partial_ord: None }
    }
}

/// One step of a field's `cmp(...)` group.  An ordering key given a bare
/// flag or a plain `true` ranks the field by the option's position in the
/// group; a number ranks it by that number; `false` takes it out again.
pub open spec fn field_cmp_step(acc: (FieldCmpConfig, Seq<Diag>), item: MapItem) -> (
    FieldCmpConfig,
    Seq<Diag>,
) {
    let idx = item.0;
    let name = item.1@;
    let span = item.3;
    if name == "eq"@ || name == "peq"@ {
        match item.2 {
            Some(LitVal::Bool(b)) => (FieldCmpConfig { eq: b, ..acc.0 }, acc.1),
            Some(LitVal::Str(s)) => match spec_parse_bool(s@) {
                Some(b) => (FieldCmpConfig { eq: b, ..acc.0 }, acc.1),
                None => (acc.0, acc.1 + seq![Diag { kind: DiagKind::ConfigValueError, span }]),
            },
            None => (FieldCmpConfig { eq: true, ..acc.0 }, acc.1),
            Some(_) => (acc.0, acc.1 + seq![Diag { kind: DiagKind::ConfigShapeError, span }]),
        }
    } else if name == "cmp"@ || name == "ord"@ {
        match item.2 {
            Some(LitVal::Bool(b)) => (
                FieldCmpConfig { ord: if b { Some(idx as i64) } else { None }, ..acc.0 },
                acc.1,
            ),
            Some(LitVal::Str(s)) => match spec_parse_i64(s@) {
                Some(k) => (FieldCmpConfig { ord: Some(k), ..acc.0 }, acc.1),
                None => (acc.0, acc.1 + seq![Diag { kind: DiagKind::ConfigValueError, span }]),
            },
            Some(LitVal::Int(k)) => (FieldCmpConfig { ord: Some(k), ..acc.0 }, acc.1),
            None => (FieldCmpConfig { ord: Some(idx as i64), ..acc.0 }, acc.1),
            Some(LitVal::Other) => (
                acc.0,
                acc.1 + seq![Diag { kind: DiagKind::ConfigShapeError, span }],
            ),
        }
    } else if name == "partial_cmp"@ || name == "pcmp"@ || name == "partial_ord"@ || name
        == "pord"@ {
        match item.2 {
            Some(LitVal::Bool(b)) => (
                FieldCmpConfig { partial_ord: if b { Some(idx as i64) } else { None }, ..acc.0 },
                acc.1,
            ),
            Some(LitVal::Str(s)) => match spec_parse_i64(s@) {
                Some(k) => (FieldCmpConfig { partial_ord: Some(k), ..acc.0 }, acc.1),
                None => (acc.0, acc.1 + seq![Diag { kind: DiagKind::ConfigValueError, span }]),
            },
            Some(LitVal::Int(k)) => (FieldCmpConfig { partial_ord: Some(k), ..acc.0 }, acc.1),
            None => (FieldCmpConfig { partial_ord: Some(idx as i64), ..acc.0 }, acc.1),
            Some(LitVal::Other) => (
                acc.0,
                acc.1 + seq![Diag { kind: DiagKind::ConfigShapeError, span }],
            ),
        }
    } else {
        acc
    }
}

/// A field's `cmp(...)` group folded left to right; later occurrences of a
/// key override earlier ones.
pub open spec fn field_cmp_fold(items: Seq<MapItem>, acc: (FieldCmpConfig, Seq<Diag>)) -> (
    FieldCmpConfig,
    Seq<Diag>,
)
    decreases items.len(),
{
    if items.len() == 0 {
        acc
    } else {
        field_cmp_fold(items.drop_first(), field_cmp_step(acc, items.first()))
    }
}

/// What one field's whole `cmp(...)` group resolves to, starting from the
/// defaults.
pub open spec fn field_cmp_group_spec(entries: Seq<AttrEntry>) -> (FieldCmpConfig, Seq<Diag>) {
    field_cmp_fold(map_items(entries), (FieldCmpConfig::spec_default(), Seq::empty()))
}

proof fn lemma_field_cmp_fold_step(items: Seq<MapItem>, acc: (FieldCmpConfig, Seq<Diag>), i: int)
    requires
        0 <= i < items.len(),
    ensures
        field_cmp_fold(items.skip(i), acc) == field_cmp_fold(
            items.skip(i + 1),
            field_cmp_step(acc, items[i]),
        ),
{
    assert(items.skip(i).first() == items[i]);
    assert(items.skip(i).drop_first() =~= items.skip(i + 1));
}

impl FieldCmpConfig {
    /// Resolves one field's `cmp(...)` group: every recognized key updates
    /// the configuration in order, unknown keys are passed over, and every
    /// bad literal is reported without stopping the walk.
    pub fn from_meta(entries: &Vec<AttrEntry>) -> (r: (FieldCmpConfig, Vec<Diag>))
        requires
            entries@.len() <= i64::MAX,
        ensures
            (r.0, r.1@) == field_cmp_group_spec(entries@),
    {
        let items = collect_meta_map(entries);
        let mut cfg = FieldCmpConfig::default();
        let mut diags: Vec<Diag> = Vec::new();
        let ghost all = items@;
        let ghost goal = field_cmp_fold(all, (cfg, diags@));
        proof {
            crate::meta::lemma_map_items_bounds(entries@);
            assert(all.skip(0) =~= all);
        }
        let n = items.len();
        for i in 0..n
            invariant
                n == all.len(),
                all == items@,
                forall|k: int| 0 <= k < all.len() ==> #[trigger] all[k].0 < entries@.len(),
                entries@.len() <= i64::MAX,
                goal == field_cmp_fold(all.skip(i as int), (cfg, diags@)),
                goal == field_cmp_group_spec(entries@),
        {
            let ghost acc0 = (cfg, diags@);
            proof {
                lemma_field_cmp_fold_step(all, acc0, i as int);
            }
            let idx = items[i].0;
            let name = &items[i].1;
            let span = items[i].3;
            if name_is(name, "eq") || name_is(name, "peq") {
                match &items[i].2 {
                    Some(LitVal::Bool(b)) => {
                        cfg.eq = *b;
                    },
                    Some(LitVal::Str(s)) => match parse_bool_str(s) {
                        Some(b) => {
                            cfg.eq = b;
                        },
                        None => {
                            diags.push(Diag { kind: DiagKind::ConfigValueError, span });
                        },
                    },
                    None => {
                        cfg.eq = true;
                    },
                    Some(_) => {
                        diags.push(Diag { kind: DiagKind::ConfigShapeError, span });
                    },
                }
            } else if name_is(name, "cmp") || name_is(name, "ord") {
                match &items[i].2 {
                    Some(LitVal::Bool(b)) => {
                        cfg.ord = if *b {
                            Some(idx as i64)
                        } else {
                            None
                        };
                    },
                    Some(LitVal::Str(s)) => match parse_i64_str(s.as_str()) {
                        Some(k) => {
                            cfg.ord = Some(k);
                        },
                        None => {
                            diags.push(Diag { kind: DiagKind::ConfigValueError, span });
                        },
                    },
                    Some(LitVal::Int(k)) => {
                        cfg.ord = Some(*k);
                    },
                    None => {
                        cfg.ord = Some(idx as i64);
                    },
                    Some(LitVal::Other) => {
                        diags.push(Diag { kind: DiagKind::ConfigShapeError, span });
                    },
                }
            } else if name_is(name, "partial_cmp") || name_is(name, "pcmp") || name_is(
                name,
                "partial_ord",
            ) || name_is(name, "pord") {
                match &items[i].2 {
                    Some(LitVal::Bool(b)) => {
                        cfg.partial_ord = if *b {
                            Some(idx as i64)
                        } else {
                            None
                        };
                    },
                    Some(LitVal::Str(s)) => match parse_i64_str(s.as_str()) {
                        Some(k) => {
                            cfg.partial_ord = Some(k);
                        },
                        None => {
                            diags.push(Diag { kind: DiagKind::ConfigValueError, span });
                        },
                    },
                    Some(LitVal::Int(k)) => {
                        cfg.partial_ord = Some(*k);
                    },
                    None => {
                        cfg.partial_ord = Some(idx as i64);
                    },
                    Some(LitVal::Other) => {
                        diags.push(Diag { kind: DiagKind::ConfigShapeError, span });
                    },
                }
            }
            proof {
                let stepped = field_cmp_step(acc0, all[i as int]);
                assert(diags@ =~= stepped.1);
                assert(cfg == stepped.0);
            }
        }
        proof {
            assert(all.skip(n as int) =~= Seq::<MapItem>::empty());
        }
        (cfg, diags)
    }
}

} // verus!
