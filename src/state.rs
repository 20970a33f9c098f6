//! The aggregate that every command consumes and produces.
use vstd::prelude::*;

use crate::component::component::Component;
use crate::component::entity_type::EntityType;
use crate::component::turn_count::TurnCount;
use crate::component::turn_order::TurnOrder;
use crate::component::turn_state::TurnStatus;
use crate::registry::Registry;
use crate::structure::hierarchy::Hierarchy;

verus! {

#[derive(Debug, Clone, PartialEq, Eq)]
pub struct State {
    pub registry: Registry,
    pub entity_type: Component<EntityType>,
    pub name: Component<String>,
    pub description: Component<String>,
    pub turn_state: Component<TurnStatus>,
    pub turn_count: Component<TurnCount>,
    pub turn_order: Component<TurnOrder>,
    pub character_player: Hierarchy,
    pub scenario_entity: Hierarchy,
}

/// Every identifier in `keys` is below `bound`.
pub open spec fn keys_below(keys: Set<usize>, bound: usize) -> bool {
    forall|id: usize| #[trigger] keys.contains(id) ==> id < bound
}

impl State {
    /// Nothing is registered, stored or related yet.
    pub open spec fn is_initial(&self) -> bool {
        &&& self.registry.next_id == 1
        &&& self.registry.id_dict@ == Map::<usize, usize>::empty()
        &&& self.registry.pub_dict@ == Map::<usize, usize>::empty()
        &&& self.entity_type@ == Map::<usize, EntityType>::empty()
        &&& self.name@ == Map::<usize, String>::empty()
        &&& self.description@ == Map::<usize, String>::empty()
        &&& self.turn_state@ == Map::<usize, TurnStatus>::empty()
        &&& self.turn_count@ == Map::<usize, TurnCount>::empty()
        &&& self.turn_order@ == Map::<usize, TurnOrder>::empty()
        &&& self.character_player.parents() == Map::<usize, usize>::empty()
        &&& self.scenario_entity.parents() == Map::<usize, usize>::empty()
    }

    /// The registry and both hierarchies are consistent, and every stored
    /// attribute belongs to an identifier the registry has handed out.
    pub open spec fn wf(&self) -> bool {
        &&& self.registry.wf()
        &&& self.character_player.wf()
        &&& self.scenario_entity.wf()
        &&& keys_below(self.entity_type@.dom(), self.registry.next_id)
        &&& keys_below(self.name@.dom(), self.registry.next_id)
        &&& keys_below(self.description@.dom(), self.registry.next_id)
        &&& keys_below(self.turn_state@.dom(), self.registry.next_id)
        &&& keys_below(self.turn_count@.dom(), self.registry.next_id)
        &&& keys_below(self.turn_order@.dom(), self.registry.next_id)
        &&& forall|sc: usize| #[trigger]
            self.turn_order@.contains_key(sc) ==> self.turn_order@[sc]@.no_duplicates()
    }
}

impl Default for State {
    fn default() -> (r: Self)
        ensures
            r.wf(),
            r.is_initial(),
    {
        State {
            registry: Registry::default(),
            entity_type: Component::new(),
            name: Component::new(),
            description: Component::new(),
            turn_state: Component::new(),
            turn_count: Component::new(),
            turn_order: Component::new(),
            character_player: Hierarchy::new(),
            scenario_entity: Hierarchy::new(),
        }
    }
}

} // verus!
