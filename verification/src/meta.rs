//! The tokenized attribute representation the resolvers consume, and the
//! collectors that walk one option list and fold it into set- or map-shaped
//! raw material.

use vstd::prelude::*;

use crate::synerr::{Diag, DiagKind};

verus! {

/// A literal attached to an option.
#[derive(Debug, PartialEq, Eq)]
pub enum LitVal {
    /// A string literal, already unescaped.
    Str(String),
    /// An integer literal that fits the machine's signed word.
    Int(i64),
    /// A boolean literal.
    Bool(bool),
    /// A literal of any other kind; no option accepts one.
    Other,
}

impl LitVal {
    /// A structural copy of the literal.
    pub fn dup(&self) -> (r: Self)
        ensures
            r == *self,
    {
        match self {
            LitVal::Str(s) => LitVal::Str(s.clone()),
            LitVal::Int(i) => LitVal::Int(*i),
            LitVal::Bool(b) => LitVal::Bool(*b),
            LitVal::Other => LitVal::Other,
        }
    }
}

/// One entry of an attribute option list.  Every entry carries the position
/// of its source tokens so that diagnostics can point at it.
#[derive(Debug, PartialEq, Eq)]
pub enum AttrEntry {
    /// A bare name: `no_debug`.
    Flag { name: String, span: u64 },
    /// A name given a literal: `seq = -1`.
    KeyValue { name: String, value: LitVal, span: u64 },
    /// A name holding a nested option list: `cmp(eq, ord)`.
    Group { name: String, entries: Vec<AttrEntry>, span: u64 },
    /// A bare literal standing alone in a list.
    Literal { value: LitVal, span: u64 },
    /// An entry whose key is not a plain name (for example a path of several
    /// segments); no recognizer matches it.
    Opaque { span: u64 },
}

impl AttrEntry {
    /// The source position of the entry.
    pub open spec fn spec_span(&self) -> u64 {
        match self {
            AttrEntry::Flag { span, .. } => *span,
            AttrEntry::KeyValue { span, .. } => *span,
            AttrEntry::Group { span, .. } => *span,
            AttrEntry::Literal { span, .. } => *span,
            AttrEntry::Opaque { span } => *span,
        }
    }

    #[verifier::when_used_as_spec(spec_span)]
    pub fn span(&self) -> (s: u64)
        ensures
            s == self.spec_span(),
    {
        match self {
            AttrEntry::Flag { span, .. } => *span,
            AttrEntry::KeyValue { span, .. } => *span,
            AttrEntry::Group { span, .. } => *span,
            AttrEntry::Literal { span, .. } => *span,
            AttrEntry::Opaque { span } => *span,
        }
    }
}

/// One map-eligible entry: its position in the list, its key, its literal if
/// it has one, and its source position.
pub type MapItem = (usize, String, Option<LitVal>, u64);

/// The names that `collect_meta_set` extracts from one list: each bare flag's
/// name and each bare string literal's text, with its source position.
pub open spec fn set_items(s: Seq<AttrEntry>) -> Seq<(String, u64)>
    decreases s.len(),
{
    if s.len() == 0 {
        Seq::empty()
    } else {
        set_items(s.drop_last()) + (match s.last() {
            AttrEntry::Flag { name, span } => seq![(name, span)],
            AttrEntry::Literal { value: LitVal::Str(t), span } => seq![(t, span)],
            _ => Seq::empty(),
        })
    }
}

/// The diagnostics of set collection: one shape error for every entry that is
/// neither a bare flag nor a bare string literal.
pub open spec fn set_diags(s: Seq<AttrEntry>) -> Seq<Diag>
    decreases s.len(),
{
    if s.len() == 0 {
        Seq::empty()
    } else {
        set_diags(s.drop_last()) + (match s.last() {
            AttrEntry::Flag { .. } => Seq::empty(),
            AttrEntry::Literal { value: LitVal::Str(t), .. } => Seq::empty(),
            e => seq![Diag { kind: DiagKind::ConfigShapeError, span: e.spec_span() }],
        })
    }
}

/// Set-mode collection: walks one option list and hands back the raw names
/// found, together with a shape diagnostic for every entry of the wrong kind.
/// Nothing is cut short: every entry contributes either a name or a
/// diagnostic.
pub fn collect_meta_set(entries: &Vec<AttrEntry>) -> (r: (Vec<(String, u64)>, Vec<Diag>))
    ensures
        r.0@ == set_items(entries@),
        r.1@ == set_diags(entries@),
{
    let mut items: Vec<(String, u64)> = Vec::new();
    let mut diags: Vec<Diag> = Vec::new();
    let n = entries.len();
    for i in 0..n
        invariant
            n == entries@.len(),
            items@ == set_items(entries@.subrange(0, i as int)),
            diags@ == set_diags(entries@.subrange(0, i as int)),
    {
        proof {
            assert(entries@.subrange(0, i + 1).drop_last() =~= entries@.subrange(0, i as int));
            assert(entries@.subrange(0, i + 1).last() == entries@[i as int]);
        }
        match &entries[i] {
            AttrEntry::Flag { name, span } => {
                items.push((name.clone(), *span));
            },
            AttrEntry::Literal { value: LitVal::Str(t), span } => {
                items.push((t.clone(), *span));
            },
            e => {
                diags.push(Diag { kind: DiagKind::ConfigShapeError, span: e.span() });
            },
        }
    }
    proof {
        assert(entries@.subrange(0, n as int) =~= entries@);
    }
    (items, diags)
}

/// The entries that map-mode collection recognizes: bare flags and key-value
/// pairs, each with its position in the list.  Everything else is passed
/// over in silence.
pub open spec fn map_items(s: Seq<AttrEntry>) -> Seq<MapItem>
    decreases s.len(),
{
    if s.len() == 0 {
        Seq::empty()
    } else {
        map_items(s.drop_last()) + (match s.last() {
            AttrEntry::Flag { name, span } => seq![
                (((s.len() - 1) as usize), name, None::<LitVal>, span),
            ],
            AttrEntry::KeyValue { name, value, span } => seq![
                (((s.len() - 1) as usize), name, Some(value), span),
            ],
            _ => Seq::empty(),
        })
    }
}

/// Every recognized entry's index lies within the list, and there are no
/// more recognized entries than entries.
pub proof fn lemma_map_items_bounds(s: Seq<AttrEntry>)
    ensures
        map_items(s).len() <= s.len(),
        forall|k: int| 0 <= k < map_items(s).len() ==> (#[trigger] map_items(s)[k]).0 < s.len(),
    decreases s.len(),
{
    if s.len() > 0 {
        lemma_map_items_bounds(s.drop_last());
        let pre = map_items(s.drop_last());
        assert forall|k: int| 0 <= k < map_items(s).len() implies (#[trigger] map_items(s)[k]).0
            < s.len() by {
            if k < pre.len() {
                assert(map_items(s)[k] == pre[k]);
            }
        }
    }
}

/// Map-mode collection: walks one option list and hands back, in order, each
/// bare flag and each key-value pair with its positional index.  Entries of
/// any other kind are skipped, never an error.
pub fn collect_meta_map(entries: &Vec<AttrEntry>) -> (r: Vec<MapItem>)
    ensures
        r@ == map_items(entries@),
{
    let mut items: Vec<MapItem> = Vec::new();
    let n = entries.len();
    for i in 0..n
        invariant
            n == entries@.len(),
            items@ == map_items(entries@.subrange(0, i as int)),
    {
        proof {
            assert(entries@.subrange(0, i + 1).drop_last() =~= entries@.subrange(0, i as int));
            assert(entries@.subrange(0, i + 1).last() == entries@[i as int]);
        }
        match &entries[i] {
            AttrEntry::Flag { name, span } => {
                items.push((i, name.clone(), None, *span));
            },
            AttrEntry::KeyValue { name, value, span } => {
                items.push((i, name.clone(), Some(value.dup()), *span));
            },
            _ => {},
        }
    }
    proof {
        assert(entries@.subrange(0, n as int) =~= entries@);
    }
    items
}

} // verus!
