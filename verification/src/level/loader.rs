use vstd::prelude::*;

use crate::level::data::LevelData;
use crate::text::same_text;

verus! {

/// The levels known to the game, in registration order.
pub struct LevelRegistry {
    pub levels: Vec<LevelData>,
    pub ordered_ids: Vec<String>,
}

/// Index of the last of the first `n` levels whose id is `id`.
pub open spec fn last_with_id_upto(levels: Seq<LevelData>, id: Seq<char>, n: int) -> Option<int>
    decreases n,
{
    if n <= 0 {
        None
    } else if levels[n - 1].id@ == id {
        Some(n - 1)
    } else {
        last_with_id_upto(levels, id, n - 1)
    }
}

/// Index of the level registered last under `id`, the one a lookup by that id finds.
pub open spec fn last_with_id(levels: Seq<LevelData>, id: Seq<char>) -> Option<int> {
    last_with_id_upto(levels, id, levels.len() as int)
}

pub proof fn lemma_last_with_id_upto_range(levels: Seq<LevelData>, id: Seq<char>, n: int)
    ensures
        last_with_id_upto(levels, id, n) matches Some(i) ==> 0 <= i < n && levels[i].id@ == id,
    decreases n,
{
    if n > 0 {
        lemma_last_with_id_upto_range(levels, id, n - 1);
    }
}

impl Default for LevelRegistry {
    fn default() -> (r: LevelRegistry)
        ensures
            r.levels@.len() == 0,
            r.ordered_ids@.len() == 0,
    {
        LevelRegistry { levels: Vec::new(), ordered_ids: Vec::new() }
    }
}

impl LevelRegistry {
    /// Every level stands at the position of its id in the order.
    pub open spec fn wf(&self) -> bool {
        &&& self.levels@.len() == self.ordered_ids@.len()
        &&& forall|i: int| 0 <= i < self.levels@.len() ==> (#[trigger] self.ordered_ids@[i])@ == self.levels@[i].id@
    }

    /// Adds a level at the end of the order; a later level shadows an earlier one of the same id.
    pub fn register(&mut self, data: LevelData)
        requires
            old(self).wf(),
        ensures
            final(self).wf(),
            final(self).levels@ == old(self).levels@.push(data),
            final(self).ordered_ids@.len() == old(self).ordered_ids@.len() + 1,
            forall|i: int| 0 <= i < old(self).ordered_ids@.len() ==> #[trigger] final(self).ordered_ids@[i] == old(self).ordered_ids@[i],
    {
        let id = data.id.clone();
        self.ordered_ids.push(id);
        self.levels.push(data);
        proof {
            let n = self.levels@.len() - 1;
            assert(self.ordered_ids@[n]@ == self.levels@[n].id@);
        }
    }

    /// The level registered last under `id`.
    pub fn get(&self, id: &str) -> (r: Option<&LevelData>)
        ensures
            match last_with_id(self.levels@, id@) {
                Some(i) => r == Some(&self.levels@[i]),
                None => r is None,
            },
    {
        let mut i = self.levels.len();
        while i > 0
            invariant
                i <= self.levels@.len(),
                last_with_id(self.levels@, id@) == last_with_id_upto(self.levels@, id@, i as int),
            decreases i,
        {
            i = i - 1;
            if same_text(self.levels[i].id.as_str(), id) {
                return Some(&self.levels[i]);
            }
        }
        None
    }

    /// The level at position `index` of the order, looked up by its id.
    pub fn get_by_index(&self, index: usize) -> (r: Option<&LevelData>)
        ensures
            index >= self.ordered_ids@.len() ==> r is None,
            index < self.ordered_ids@.len() ==> match last_with_id(self.levels@, self.ordered_ids@[index as int]@) {
                Some(i) => r == Some(&self.levels@[i]),
                None => r is None,
            },
    {
        if index < self.ordered_ids.len() {
            self.get(self.ordered_ids[index].as_str())
        } else {
            None
        }
    }

    /// Number of registered levels.
    pub fn level_count(&self) -> (n: usize)
        ensures
            n == self.ordered_ids@.len(),
    {
        self.ordered_ids.len()
    }
}

/// In a well-formed registry the level at an index is found by its own id, unless a later
/// level has the same id.
pub proof fn law_lookup_by_index(reg: &LevelRegistry, index: int)
    requires
        reg.wf(),
        0 <= index < reg.ordered_ids@.len(),
    ensures
        last_with_id(reg.levels@, reg.ordered_ids@[index]@) matches Some(i) && index <= i
            && reg.levels@[i].id@ == reg.levels@[index].id@,
{
    let levels = reg.levels@;
    let id = reg.ordered_ids@[index]@;
    assert(levels[index].id@ == id);
    lemma_upto_at_least(levels, id, index, levels.len() as int);
    lemma_last_with_id_upto_range(levels, id, levels.len() as int);
}

proof fn lemma_upto_at_least(levels: Seq<LevelData>, id: Seq<char>, k: int, n: int)
    requires
        0 <= k < n,
        levels[k].id@ == id,
    ensures
        last_with_id_upto(levels, id, n) matches Some(i) && k <= i,
    decreases n,
{
    if n - 1 != k && levels[n - 1].id@ != id {
        lemma_upto_at_least(levels, id, k, n - 1);
    }
}

/// Looking a level up by id after registering it finds that level; registering a level leaves
/// the lookup of every other id as it was.
pub proof fn law_register_then_get(levels: Seq<LevelData>, data: LevelData, id: Seq<char>)
    ensures
        last_with_id(levels.push(data), data.id@) == Some(levels.len() as int),
        id != data.id@ ==> last_with_id(levels.push(data), id) == last_with_id(levels, id),
{
    let n = levels.len() as int;
    let l2 = levels.push(data);
    assert(l2[n] == data);
    if id != data.id@ {
        assert(last_with_id_upto(l2, id, n + 1) == last_with_id_upto(l2, id, n));
        lemma_upto_prefix(levels, data, id, n);
    }
}

proof fn lemma_upto_prefix(levels: Seq<LevelData>, data: LevelData, id: Seq<char>, k: int)
    requires
        0 <= k <= levels.len(),
    ensures
        last_with_id_upto(levels.push(data), id, k) == last_with_id_upto(levels, id, k),
    decreases k,
{
    if k > 0 {
        assert(levels.push(data)[k - 1] == levels[k - 1]);
        lemma_upto_prefix(levels, data, id, k - 1);
    }
}

} // verus!
