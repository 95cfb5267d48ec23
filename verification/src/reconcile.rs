//! Role reconciliation: which of the roles that the identity service asserts
//! for a user are granted in a guild.
//!
//! Reconciliation is additive. It names roles to grant and never one to take
//! away.

use crate::decimal::{parse_snowflake, parse_u64};
use vstd::prelude::*;

verus! {

/// One role that a guild defines.
#[derive(Debug, Clone, PartialEq, Eq)]
pub struct RoleCatalogEntry {
    pub role_id: u64,
    pub display_name: String,
}

/// The identifiers of the roles in a catalog.
pub open spec fn catalog_ids(catalog: Seq<RoleCatalogEntry>) -> Set<u64> {
    Set::new(|id: u64| exists|i: int| 0 <= i < catalog.len() && (#[trigger] catalog[i]).role_id == id)
}

/// Whether `text` is a numeral of the role identifier `id`.
pub open spec fn denotes(text: Seq<char>, id: u64) -> bool {
    parse_u64(text) == Some(id)
}

/// The reconciled roles: the asserted identifiers that are numerals of a
/// known role, each once, in the order in which they are first seen.
pub open spec fn reconciled(asserted: Seq<Seq<char>>, known: Set<u64>) -> Seq<u64>
    decreases asserted.len(),
{
    if asserted.len() == 0 {
        Seq::empty()
    } else {
        let earlier = reconciled(asserted.drop_last(), known);
        match parse_u64(asserted.last()) {
            Some(id) => if known.contains(id) && !earlier.contains(id) {
                earlier.push(id)
            } else {
                earlier
            },
            None => earlier,
        }
    }
}

/// Whether `first` is seen among the asserted identifiers before `second`
/// ever is.
pub open spec fn seen_before(asserted: Seq<Seq<char>>, first: u64, second: u64) -> bool {
    exists|i: int|
        0 <= i < asserted.len() && denotes(#[trigger] asserted[i], first) && forall|j: int|
            0 <= j <= i ==> !denotes(#[trigger] asserted[j], second)
}

/// The roles to grant to a member, free of duplicates.
#[derive(Debug, PartialEq, Eq)]
pub struct ReconciledRoleSet {
    ids: Vec<u64>,
}

impl View for ReconciledRoleSet {
    type V = Seq<u64>;

    closed spec fn view(&self) -> Seq<u64> {
        self.ids@
    }
}

impl ReconciledRoleSet {
    #[verifier::type_invariant]
    spec fn distinct(&self) -> bool {
        self.ids@.no_duplicates()
    }

    /// The role identifiers, in first-seen order.
    pub fn ids(&self) -> (ids: &Vec<u64>)
        ensures
            ids@ == self@,
            ids@.no_duplicates(),
    {
        proof {
            use_type_invariant(self);
        }
        &self.ids
    }

    /// How many roles the set holds.
    pub fn len(&self) -> (n: usize)
        ensures
            n == self@.len(),
    {
        self.ids.len()
    }

    /// Whether the set holds no role at all.
    pub fn is_empty(&self) -> (empty: bool)
        ensures
            empty == (self@.len() == 0),
    {
        self.ids.len() == 0
    }

    /// Whether the set holds the role `id`.
    pub fn contains(&self, id: u64) -> (found: bool)
        ensures
            found == self@.contains(id),
    {
        holds(&self.ids, id)
    }
}

/// Whether `id` occurs in `ids`.
fn holds(ids: &Vec<u64>, id: u64) -> (found: bool)
    ensures
        found == ids@.contains(id),
{
    let mut i: usize = 0;
    while i < ids.len()
        invariant
            i <= ids.len(),
            forall|j: int| 0 <= j < i ==> ids@[j] != id,
        decreases ids.len() - i,
    {
        if ids[i] == id {
            return true;
        }
        i += 1;
    }
    false
}

/// Whether a catalog defines the role `id`.
pub fn catalog_defines(catalog: &Vec<RoleCatalogEntry>, id: u64) -> (found: bool)
    ensures
        found == catalog_ids(catalog@).contains(id),
{
    let mut i: usize = 0;
    while i < catalog.len()
        invariant
            i <= catalog.len(),
            forall|j: int| 0 <= j < i ==> (#[trigger] catalog@[j]).role_id != id,
        decreases catalog.len() - i,
    {
        if catalog[i].role_id == id {
            return true;
        }
        i += 1;
    }
    false
}

/// What is known of the reconciled roles: they hold no role twice; they hold
/// exactly the known roles that some asserted identifier is a numeral of; and
/// of two of them, the one that stands first was seen before the other was
/// ever seen.
pub proof fn lemma_reconciled(asserted: Seq<Seq<char>>, known: Set<u64>)
    ensures
        reconciled(asserted, known).no_duplicates(),
        forall|id: u64| #[trigger]
            reconciled(asserted, known).contains(id) <==> known.contains(id) && exists|i: int|
                0 <= i < asserted.len() && denotes(#[trigger] asserted[i], id),
        forall|a: int, b: int|
            0 <= a < b < reconciled(asserted, known).len() ==> seen_before(
                asserted,
                #[trigger] reconciled(asserted, known)[a],
                #[trigger] reconciled(asserted, known)[b],
            ),
    decreases asserted.len(),
{
    let r = reconciled(asserted, known);
    if asserted.len() > 0 {
        let front = asserted.drop_last();
        let earlier = reconciled(front, known);
        let n = asserted.len() - 1;
        lemma_reconciled(front, known);
        assert(forall|k: int| 0 <= k < earlier.len() ==> r[k] == earlier[k]);
        assert forall|id: u64| #[trigger]
            r.contains(id) <==> known.contains(id) && exists|i: int|
                0 <= i < asserted.len() && denotes(#[trigger] asserted[i], id) by {
            if r.contains(id) {
                let k = choose|k: int| 0 <= k < r.len() && r[k] == id;
                if k < earlier.len() {
                    assert(earlier.contains(id));
                    let i = choose|i: int| 0 <= i < front.len() && denotes(#[trigger] front[i], id);
                    assert(denotes(asserted[i], id));
                } else {
                    assert(denotes(asserted[n], id));
                }
            }
            if known.contains(id) && exists|i: int|
                0 <= i < asserted.len() && denotes(#[trigger] asserted[i], id) {
                let i = choose|i: int| 0 <= i < asserted.len() && denotes(#[trigger] asserted[i], id);
                if i < n {
                    assert(denotes(front[i], id));
                }
                if earlier.contains(id) {
                    let k = choose|k: int| 0 <= k < earlier.len() && earlier[k] == id;
                    assert(r[k] == id);
                } else {
                    assert(r[r.len() - 1] == id);
                }
            }
        }
        assert forall|a: int, b: int| 0 <= a < b < r.len() implies seen_before(
            asserted,
            #[trigger] r[a],
            #[trigger] r[b],
        ) by {
            assert(earlier.contains(r[a]));
            let i = if b < earlier.len() {
                choose|i: int|
                    0 <= i < front.len() && denotes(#[trigger] front[i], earlier[a]) && forall|j: int|
                        0 <= j <= i ==> !denotes(#[trigger] front[j], earlier[b])
            } else {
                choose|i: int| 0 <= i < front.len() && denotes(#[trigger] front[i], r[a])
            };
            assert(denotes(asserted[i], r[a]));
            assert forall|j: int| 0 <= j <= i implies !denotes(#[trigger] asserted[j], r[b]) by {
                assert(front[j] == asserted[j]);
                if b >= earlier.len() {
                    assert(!earlier.contains(r[b]));
                }
            }
        }
    }
}

/// Reconciles the role identifiers that the identity service asserted with
/// the roles that the guild defines.
///
/// An identifier that is no numeral, or that names no role of the guild, is
/// passed over; neither is an error.
pub fn reconcile_roles(asserted: &Vec<String>, catalog: &Vec<RoleCatalogEntry>) -> (set:
    ReconciledRoleSet)
    ensures
        set@ == reconciled(asserted.deep_view(), catalog_ids(catalog@)),
        set@.no_duplicates(),
        forall|id: u64| #[trigger]
            set@.contains(id) <==> catalog_ids(catalog@).contains(id) && exists|i: int|
                0 <= i < asserted.len() && denotes(#[trigger] asserted.deep_view()[i], id),
        forall|a: int, b: int|
            0 <= a < b < set@.len() ==> seen_before(
                asserted.deep_view(),
                #[trigger] set@[a],
                #[trigger] set@[b],
            ),
{
    let ghost known = catalog_ids(catalog@);
    let ghost texts = asserted.deep_view();
    let mut ids: Vec<u64> = Vec::new();
    let mut i: usize = 0;
    while i < asserted.len()
        invariant
            i <= asserted.len(),
            known == catalog_ids(catalog@),
            texts == asserted.deep_view(),
            ids@ == reconciled(texts.take(i as int), known),
        decreases asserted.len() - i,
    {
        proof {
            assert(texts.take(i + 1).drop_last() =~= texts.take(i as int));
            assert(texts.take(i + 1).last() == asserted@[i as int]@);
        }
        match parse_snowflake(asserted[i].as_str()) {
            Some(id) => {
                if catalog_defines(catalog, id) && !holds(&ids, id) {
                    ids.push(id);
                }
            },
            None => {},
        }
        i += 1;
    }
    proof {
        assert(texts.take(i as int) =~= texts);
        lemma_reconciled(texts, known);
    }
    ReconciledRoleSet { ids }
}

} // verus!
