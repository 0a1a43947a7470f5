use vstd::prelude::*;

use crate::widget_pack::{is_found_pack, WidgetPack};

verus! {

/// The packs of `packs` by their ID's, in the order given: a later pack with
/// the same ID as an earlier one takes its place.
pub open spec fn packs_by_id(packs: Seq<WidgetPack>) -> Map<Seq<char>, WidgetPack>
    decreases packs.len(),
{
    if packs.len() == 0 {
        Map::empty()
    } else {
        packs_by_id(packs.drop_last()).insert(packs.last().id@, packs.last())
    }
}

/// No two packs of `packs` share an ID.
pub open spec fn distinct_ids(packs: Seq<WidgetPack>) -> bool {
    forall|i: int, j: int| 0 <= i < j < packs.len() ==> packs[i].id@ != packs[j].id@
}

/// Whether `pack` is the last pack of `packs` with the ID `id`.
pub open spec fn is_last_with_id(packs: Seq<WidgetPack>, id: Seq<char>, i: int) -> bool {
    &&& 0 <= i < packs.len()
    &&& packs[i].id@ == id
    &&& forall|j: int| i < j < packs.len() ==> packs[j].id@ != id
}

/// The widget packs found in the config directory, by their ID's.
#[derive(Debug)]
pub struct WidgetPackManager {
    packs: Vec<WidgetPack>,
}

impl View for WidgetPackManager {
    type V = Map<Seq<char>, WidgetPack>;

    closed spec fn view(&self) -> Map<Seq<char>, WidgetPack> {
        packs_by_id(self.packs@)
    }
}

/// The ID's that `packs_by_id` holds are those of the packs.
proof fn lemma_packs_by_id_domain(packs: Seq<WidgetPack>, id: Seq<char>)
    ensures
        packs_by_id(packs).dom().contains(id) <==> exists|i: int|
            0 <= i < packs.len() && #[trigger] packs[i].id@ == id,
    decreases packs.len(),
{
    if packs.len() > 0 {
        let init = packs.drop_last();
        lemma_packs_by_id_domain(init, id);
        if packs_by_id(init).dom().contains(id) {
            let i = choose|i: int| 0 <= i < init.len() && #[trigger] init[i].id@ == id;
            assert(packs[i].id@ == id);
        }
        if exists|i: int| 0 <= i < packs.len() && #[trigger] packs[i].id@ == id {
            let i = choose|i: int| 0 <= i < packs.len() && #[trigger] packs[i].id@ == id;
            if i < packs.len() - 1 {
                assert(init[i].id@ == id);
            }
        }
    }
}

/// `packs_by_id` holds, under each ID, the last pack with that ID.
proof fn lemma_packs_by_id_last(packs: Seq<WidgetPack>, id: Seq<char>, i: int)
    requires
        is_last_with_id(packs, id, i),
    ensures
        packs_by_id(packs).dom().contains(id),
        packs_by_id(packs)[id] == packs[i],
    decreases packs.len(),
{
    if i < packs.len() - 1 {
        let init = packs.drop_last();
        assert(packs.last().id@ != id);
        lemma_packs_by_id_last(init, id, i);
    }
}

/// Each pack that `packs_by_id` holds is held under its own ID.
proof fn lemma_packs_by_id_own_id(packs: Seq<WidgetPack>, id: Seq<char>)
    requires
        packs_by_id(packs).dom().contains(id),
    ensures
        packs_by_id(packs)[id].id@ == id,
    decreases packs.len(),
{
    if packs.len() > 0 && packs.last().id@ != id {
        lemma_packs_by_id_own_id(packs.drop_last(), id);
    }
}

/// Each pack that `packs_by_id` holds is one of the packs.
proof fn lemma_packs_by_id_member(packs: Seq<WidgetPack>, id: Seq<char>)
    requires
        packs_by_id(packs).dom().contains(id),
    ensures
        exists|i: int| 0 <= i < packs.len() && packs[i] == #[trigger] packs_by_id(packs)[id],
    decreases packs.len(),
{
    if packs.last().id@ == id {
        assert(packs[packs.len() - 1] == packs_by_id(packs)[id]);
    } else {
        let init = packs.drop_last();
        lemma_packs_by_id_member(init, id);
        let i = choose|i: int| 0 <= i < init.len() && init[i] == #[trigger] packs_by_id(init)[id];
        assert(packs[i] == packs_by_id(packs)[id]);
    }
}

/// Putting a pack in the place of the one with the same ID, where ID's are
/// distinct, is inserting it under that ID.
proof fn lemma_packs_by_id_replace(packs: Seq<WidgetPack>, i: int, pack: WidgetPack)
    requires
        distinct_ids(packs),
        0 <= i < packs.len(),
        packs[i].id@ == pack.id@,
    ensures
        packs_by_id(packs.update(i, pack)) == packs_by_id(packs).insert(pack.id@, pack),
        distinct_ids(packs.update(i, pack)),
    decreases packs.len(),
{
    let updated = packs.update(i, pack);
    if i == packs.len() - 1 {
        assert(updated.drop_last() =~= packs.drop_last());
        let m = packs_by_id(packs.drop_last());
        assert(m.insert(pack.id@, pack) =~= m.insert(pack.id@, packs.last()).insert(
            pack.id@,
            pack,
        ));
    } else {
        let init = packs.drop_last();
        lemma_packs_by_id_replace(init, i, pack);
        assert(updated.drop_last() =~= init.update(i, pack));
        assert(packs.last().id@ != pack.id@);
        let m = packs_by_id(init);
        assert(m.insert(pack.id@, pack).insert(packs.last().id@, packs.last()) =~= m.insert(
            packs.last().id@,
            packs.last(),
        ).insert(pack.id@, pack));
    }
}

impl WidgetPackManager {
    /// ID's of the packs held are distinct.
    #[verifier::type_invariant]
    spec fn ids_are_distinct(self) -> bool {
        distinct_ids(self.packs@)
    }

    /// A manager without packs.
    pub fn new() -> (res: Self)
        ensures
            res@ == Map::<Seq<char>, WidgetPack>::empty(),
    {
        WidgetPackManager { packs: Vec::new() }
    }

    /// Position of the pack with the ID `id` in `packs`, if there is one.
    fn position_of(packs: &Vec<WidgetPack>, id: &String) -> (res: Option<usize>)
        ensures
            match res {
                Some(i) => i < packs@.len() && packs@[i as int].id@ == id@,
                None => forall|i: int| 0 <= i < packs@.len() ==> packs@[i].id@ != id@,
            },
    {
        let mut i: usize = 0;
        while i < packs.len()
            invariant
                i <= packs@.len(),
                forall|j: int| 0 <= j < i ==> packs@[j].id@ != id@,
            decreases packs.len() - i,
        {
            if packs[i].id == *id {
                return Some(i);
            }
            i = i + 1;
        }
        None
    }

    /// Adds a pack under its ID, in the place of any pack with the same ID.
    pub fn insert(&mut self, pack: WidgetPack)
        ensures
            final(self)@ == old(self)@.insert(pack.id@, pack),
    {
        proof {
            use_type_invariant(&*self);
        }
        let mut packs: Vec<WidgetPack> = Vec::new();
        std::mem::swap(&mut packs, &mut self.packs);
        let ghost before = packs@;
        match Self::position_of(&packs, &pack.id) {
            Some(i) => {
                proof {
                    lemma_packs_by_id_replace(before, i as int, pack);
                }
                packs.set(i, pack);
            },
            None => {
                assert(packs@.push(pack).drop_last() =~= before);
                packs.push(pack);
            },
        }
        self.packs = packs;
    }

    /// Collects found packs by their ID's. Packs are added in the order
    /// given, so a later pack with the same ID as an earlier one replaces
    /// it.
    pub fn from_packs(packs: Vec<WidgetPack>) -> (res: Self)
        ensures
            res@ == packs_by_id(packs@),
    {
        let ghost all = packs@;
        let mut manager = Self::new();
        for pack in it: packs.into_iter()
            invariant
                it.seq() == all,
                manager@ == packs_by_id(all.take(it.index() as int)),
        {
            assert(all.take(it.index() + 1).drop_last() =~= all.take(it.index() as int));
            manager.insert(pack);
        }
        assert(all.take(all.len() as int) =~= all);
        manager
    }

    /// Returns all widget packs, each held under its own ID.
    pub fn widget_packs(&self) -> (res: &[WidgetPack])
        ensures
            packs_by_id(res@) == self@,
            distinct_ids(res@),
    {
        proof {
            use_type_invariant(self);
        }
        self.packs.as_slice()
    }

    /// Finds a widget pack by ID.
    pub fn widget_pack_by_id(&self, pack_id: &str) -> (res: Option<&WidgetPack>)
        ensures
            match res {
                Some(pack) => self@.dom().contains(pack_id@) && *pack == self@[pack_id@],
                None => !self@.dom().contains(pack_id@),
            },
    {
        proof {
            use_type_invariant(self);
        }
        let id = String::from_str(pack_id);
        match Self::position_of(&self.packs, &id) {
            Some(i) => {
                proof {
                    lemma_packs_by_id_last(self.packs@, pack_id@, i as int);
                }
                Some(&self.packs[i])
            },
            None => {
                proof {
                    lemma_packs_by_id_domain(self.packs@, pack_id@);
                }
                None
            },
        }
    }
}

/// Every pack that a manager holds is held under its own ID.
pub proof fn law_packs_held_under_own_id(manager: WidgetPackManager, id: Seq<char>)
    requires
        manager@.dom().contains(id),
    ensures
        manager@[id].id@ == id,
{
    lemma_packs_by_id_own_id(manager.packs@, id);
}

/// Collecting packs keeps exactly their ID's, and under each ID the last
/// pack found with it.
pub proof fn law_last_found_pack_wins(packs: Seq<WidgetPack>, id: Seq<char>, i: int)
    requires
        0 <= i < packs.len(),
        packs[i].id@ == id,
        forall|j: int| i < j < packs.len() ==> packs[j].id@ != id,
    ensures
        packs_by_id(packs).dom().contains(id),
        packs_by_id(packs)[id] == packs[i],
{
    lemma_packs_by_id_last(packs, id, i);
}

/// Packs collected from packs as reading their configs makes them are all
/// such packs: each custom, with the ID that its config names.
pub proof fn law_collected_packs_are_found_packs(packs: Seq<WidgetPack>, id: Seq<char>)
    requires
        forall|i: int| 0 <= i < packs.len() ==> is_found_pack(#[trigger] packs[i]),
        packs_by_id(packs).dom().contains(id),
    ensures
        is_found_pack(packs_by_id(packs)[id]),
{
    lemma_packs_by_id_member(packs, id);
}

/// Inserting a pack as reading its config makes it into a manager that
/// holds only such packs leaves it holding only such packs.
pub proof fn law_insert_keeps_found_packs(
    before: WidgetPackManager,
    after: WidgetPackManager,
    pack: WidgetPack,
    id: Seq<char>,
)
    requires
        after@ == before@.insert(pack.id@, pack),
        is_found_pack(pack),
        forall|k: Seq<char>| before@.dom().contains(k) ==> is_found_pack(#[trigger] before@[k]),
        after@.dom().contains(id),
    ensures
        is_found_pack(after@[id]),
{
    if id != pack.id@ {
        assert(before@.dom().contains(id));
    }
}

/// A collection of packs holds an ID exactly when some pack has it.
pub proof fn law_collected_ids(packs: Seq<WidgetPack>, id: Seq<char>)
    ensures
        packs_by_id(packs).dom().contains(id) <==> exists|i: int|
            0 <= i < packs.len() && #[trigger] packs[i].id@ == id,
{
    lemma_packs_by_id_domain(packs, id);
}

/// After a pack is inserted, looking up its ID finds it, and every other ID
/// finds what it found before.
pub proof fn law_lookup_after_insert(
    before: WidgetPackManager,
    after: WidgetPackManager,
    pack: WidgetPack,
    id: Seq<char>,
)
    requires
        after@ == before@.insert(pack.id@, pack),
    ensures
        after@.dom().contains(pack.id@),
        after@[pack.id@] == pack,
        id != pack.id@ ==> (after@.dom().contains(id) == before@.dom().contains(id)),
        id != pack.id@ && before@.dom().contains(id) ==> after@[id] == before@[id],
{
}

} // verus!
