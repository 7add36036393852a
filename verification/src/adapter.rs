//! The filter that decides which parts of a block become triggers.

use vstd::hash_set::StringHashSet;
use vstd::prelude::*;

verus! {

/// Selects events by their type.
pub struct CosmosEventTypeFilter {
    pub event_types: StringHashSet,
}

impl CosmosEventTypeFilter {
    /// Whether events of this type are wanted.
    pub fn matches(&self, event_type: &String) -> (res: bool)
        ensures
            res == self.event_types@.contains(event_type@),
    {
        self.event_types.contains(event_type.as_str())
    }
}

/// Says whether every block is wanted as a whole.
pub struct CosmosBlockFilter {
    pub trigger_every_block: bool,
}

/// What a subgraph wants to be triggered by.
pub struct TriggerFilter {
    pub event_type_filter: CosmosEventTypeFilter,
    pub block_filter: CosmosBlockFilter,
}

/// Model of [`TriggerFilter`].
#[verifier::ext_equal]
pub struct FilterModel {
    pub event_types: Set<Seq<char>>,
    pub trigger_every_block: bool,
}

impl DeepView for TriggerFilter {
    type V = FilterModel;

    open spec fn deep_view(&self) -> FilterModel {
        FilterModel {
            event_types: self.event_type_filter.event_types@,
            trigger_every_block: self.block_filter.trigger_every_block,
        }
    }
}

impl TriggerFilter {
    /// A filter for the given event types, and for whole blocks if asked for.
    pub fn new(trigger_every_block: bool, event_types: Vec<String>) -> (res: Self)
        ensures
            res.deep_view().trigger_every_block == trigger_every_block,
            res.deep_view().event_types == event_types.deep_view().to_set(),
    {
        let mut wanted = StringHashSet::new();
        let mut i: usize = 0;
        assert(event_types.deep_view().take(0).to_set() =~= Set::empty());
        while i < event_types.len()
            invariant
                i <= event_types.len(),
                wanted@ == event_types.deep_view().take(i as int).to_set(),
            decreases event_types.len() - i,
        {
            wanted.insert(event_types[i].clone());
            proof {
                let names = event_types.deep_view();
                let before = names.take(i as int);
                let after = names.take(i + 1);
                assert(after =~= before.push(names[i as int]));
                assert forall|s: Seq<char>| after.contains(s) implies before.contains(s)
                    || s == names[i as int] by {
                    let k = choose|k: int| 0 <= k < after.len() && after[k] == s;
                    if k < i {
                        assert(before[k] == s);
                    }
                }
                assert forall|s: Seq<char>| before.contains(s) implies after.contains(s) by {
                    let k = choose|k: int| 0 <= k < before.len() && before[k] == s;
                    assert(after[k] == s);
                }
                assert(after[i as int] == names[i as int]);
                assert(after.to_set() =~= before.to_set().insert(names[i as int]));
            }
            i = i + 1;
        }
        assert(event_types.deep_view().take(i as int) =~= event_types.deep_view());
        TriggerFilter {
            event_type_filter: CosmosEventTypeFilter { event_types: wanted },
            block_filter: CosmosBlockFilter { trigger_every_block },
        }
    }
}

} // verus!
