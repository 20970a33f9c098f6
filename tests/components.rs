use yourupnext::applicable::{AdHoc, Applicable, ApplicableChainable, CmdErr, CmdResult};
use yourupnext::component::component::Component;
use yourupnext::component::description;
use yourupnext::component::entity_type::{self, EntityType};
use yourupnext::component::name;
use yourupnext::component::turn_count;
use yourupnext::component::turn_order::{self, TurnPosition};
use yourupnext::component::turn_state::{self, TurnStatus};
use yourupnext::error::{cmd_err, err, qry_err, Error};
use yourupnext::model::character::Character;
use yourupnext::model::entity::Entity;
use yourupnext::model::player::Player;
use yourupnext::model::scenario::Scenario;
use yourupnext::model::seq_play::{self, SeqPlay};
use yourupnext::registry::{self, Registry};
use yourupnext::state::State;
use yourupnext::structure::association::Association;
use yourupnext::structure::hierarchy::Hierarchy;

#[test]
fn turn_count() {
    let state = State::default().apply(Entity::Add(100)).unwrap();

    assert_eq!(turn_count::qry::count(&state, 100), 0);

    let state = state
        .apply(AdHoc(|state: State| turn_count::cmd::count(state, 100)))
        .apply(AdHoc(|state: State| turn_count::cmd::count(state, 100)))
        .unwrap();

    assert_eq!(turn_count::qry::count(&state, 100), 2);

    let state = state
        .apply(AdHoc(|state: State| turn_count::cmd::reset(state, 100)))
        .unwrap();

    assert_eq!(turn_count::qry::count(&state, 100), 0);
}

#[test]
fn turn_count_limits() {
    let mut state = State::default().apply(Entity::Add(1)).unwrap();
    assert_eq!(turn_count::cmd::reset(state.clone(), 1), Err(CmdErr::NotFound));
    assert_eq!(turn_count::cmd::count(state.clone(), 2), Err(CmdErr::NotFound));
    for _ in 0..255 {
        state = turn_count::cmd::count(state, 1).unwrap();
    }
    assert_eq!(turn_count::qry::count(&state, 1), 255);
    assert_eq!(turn_count::cmd::count(state, 1), Err(CmdErr::OutOfRange));
}

#[test]
fn component_insert_update_delete() {
    let mut c: Component<String> = Component::new();
    assert!(c.is_empty());
    assert_eq!(c.insert(3, "a".to_string()), Ok(()));
    assert_eq!(c.get(3), Some("a".to_string()));
    assert_eq!(c.insert(3, "b".to_string()), Err(CmdErr::AlreadyExists));
    assert_eq!(c.get(3), Some("a".to_string()));
    assert_eq!(c.update(3, "c".to_string()), Ok(()));
    assert_eq!(c.update(4, "d".to_string()), Ok(()));
    assert_eq!(c.get(3), Some("c".to_string()));
    assert!(c.is_set(4));
    assert_eq!(c.delete(5), Err(CmdErr::NotFound));
    assert_eq!(c.delete(3), Ok(()));
    assert_eq!(c.get(3), None);
    assert!(!c.is_set(3));
    assert!(!c.is_empty());
}

#[test]
fn registry_round_trip() {
    let state = registry::register(State::default(), 42).unwrap();
    let id = registry::id(&state, 42);
    assert!(id > 0);
    assert_eq!(id, 1);
    assert_eq!(state.registry.pub_id(&id), Some(42));
    assert!(state.registry.has_id(&id));
    assert!(state.registry.has_pub_id(&42));
    assert_eq!(registry::register(state.clone(), 42), Err(CmdErr::AlreadyExists));

    let state = registry::deregister(state, id).unwrap();
    assert_eq!(registry::id(&state, 42), 0);
    assert_eq!(registry::pub_id(&state, id), None);
    assert_eq!(registry::deregister(state.clone(), id), Err(CmdErr::NotFound));

    let state = registry::register(state, 42).unwrap();
    assert_eq!(registry::id(&state, 42), 2);
    assert_eq!(Registry::default().id(&9), 0);
}

#[test]
fn names_and_descriptions() {
    let state = Entity::Add(100).apply_to_default().unwrap();
    let renamed = name::Cmd::Assign(100, "AName".to_string()).apply_to(state.clone()).unwrap();
    assert_eq!(name::qry::get(&renamed, 100), "AName");
    assert_eq!(name::qry::get(&renamed, 7), "");
    assert_eq!(name::cmd::set(state.clone(), 7, "X"), Err(CmdErr::NotFound));
    let described = description::Cmd::Assign(100, "ADescription".to_string())
        .apply_to(state)
        .unwrap();
    assert_eq!(description::qry::get(&described, 100), "ADescription");
}

#[test]
fn entity_type_guards() {
    let state = State::default()
        .apply(Character::Add(100, "ACharacter".to_string()))
        .unwrap();
    assert!(entity_type::grd::must_be(&state, 100, EntityType::Character).is_ok());
    assert!(entity_type::grd::must_be(&state, 100, EntityType::Player).is_err());
    assert!(entity_type::grd::must_not_be(&state, 100, EntityType::Character).is_err());
    assert!(entity_type::grd::must_not_be(&state, 100, EntityType::Player).is_ok());
    assert_eq!(entity_type::qry::get(&state, 5), EntityType::Missing);
    assert!(entity_type::cmd::classify(state, 100, EntityType::Missing).is_err());
}

#[test]
fn turn_status_component() {
    let state = State::default().apply(Entity::Add(100)).unwrap();
    let state = turn_state::cmd::set(state, 100, TurnStatus::Available).unwrap();
    assert_eq!(turn_state::qry::get(&state, 100), TurnStatus::Available);
    let state = turn_state::cmd::set(state, 100, TurnStatus::NoTurn).unwrap();
    assert_eq!(turn_state::qry::get(&state, 100), TurnStatus::NoTurn);
    assert!(state.turn_state.is_empty());
    assert_eq!(turn_state::qry::get(&state, 9), TurnStatus::NoTurn);
}

fn scenario_with_four() -> State {
    State::default()
        .apply(Scenario::Add(100))
        .apply(Character::Add(200, "A".to_string()))
        .apply(Character::Add(300, "B".to_string()))
        .apply(Character::Add(400, "C".to_string()))
        .apply(Character::Add(500, "D".to_string()))
        .and_then(|s| turn_order::cmd::add_turn(s, 100, 200))
        .and_then(|s| turn_order::cmd::add_turn(s, 100, 300))
        .and_then(|s| turn_order::cmd::add_turn(s, 100, 400))
        .and_then(|s| turn_order::cmd::add_turn(s, 100, 500))
        .unwrap()
}

#[test]
fn turn_order_add_and_remove() {
    let state = scenario_with_four();
    assert_eq!(turn_order::qry::sequence(&state, 100), vec![200, 300, 400, 500]);
    assert!(turn_order::qry::contains(&state, 100, 300));
    assert_eq!(
        turn_order::cmd::add_turn(state.clone(), 100, 300),
        Err(CmdErr::AlreadyExists)
    );
    assert_eq!(
        turn_order::cmd::add_turn(state.clone(), 200, 300),
        Err(CmdErr::PreconditionFailed)
    );
    let state = turn_order::cmd::remove_turn(state, 100, 200).unwrap();
    assert_eq!(turn_order::qry::sequence(&state, 100), vec![300, 400, 500]);
    assert!(!turn_order::qry::contains(&state, 100, 200));
    assert_eq!(turn_order::cmd::remove_turn(state, 100, 200), Err(CmdErr::NotFound));
}

#[test]
fn turn_order_moves() {
    let state = scenario_with_four();
    let moved = |position: TurnPosition| {
        let s = turn_order::cmd::move_turn(state.clone(), 100, 400, position).unwrap();
        turn_order::qry::sequence(&s, 100)
    };
    assert_eq!(moved(TurnPosition::Start), vec![400, 200, 300, 500]);
    assert_eq!(moved(TurnPosition::End), vec![200, 300, 500, 400]);
    assert_eq!(moved(TurnPosition::Before(300)), vec![200, 400, 300, 500]);
    assert_eq!(moved(TurnPosition::After(200)), vec![200, 400, 300, 500]);
    assert_eq!(moved(TurnPosition::Before(200)), vec![400, 200, 300, 500]);
    assert_eq!(moved(TurnPosition::After(500)), vec![200, 300, 500, 400]);
    assert!(turn_order::cmd::move_turn(state.clone(), 100, 400, TurnPosition::Before(400)).is_err());
    assert!(turn_order::cmd::move_turn(state.clone(), 100, 400, TurnPosition::After(999)).is_err());
    assert!(turn_order::cmd::move_turn(state, 100, 600, TurnPosition::Start).is_err());
}

#[test]
fn turn_order_set() {
    let state = scenario_with_four();
    let state = turn_order::cmd::set(state, 100, vec![500, 200]).unwrap();
    assert_eq!(turn_order::qry::sequence(&state, 100), vec![500, 200]);
    assert_eq!(
        turn_order::cmd::set(state.clone(), 100, vec![500, 500]),
        Err(CmdErr::AlreadyExists)
    );
    assert_eq!(turn_order::cmd::set(state.clone(), 100, vec![777]), Err(CmdErr::NotFound));
    assert_eq!(turn_order::cmd::set(state, 888, vec![]), Err(CmdErr::NotFound));
}

#[test]
fn sequenced_play() {
    let state = State::default()
        .apply(Scenario::Add(100))
        .apply(Character::Add(200, "ACharacter".to_string()))
        .apply(SeqPlay::AddTurn(100, 200))
        .unwrap();
    assert_eq!(turn_state::qry::get(&state, 200), TurnStatus::Free);
    assert_eq!(seq_play::qry::new_turn_init_state(&state, 100), TurnStatus::Free);
    assert_eq!(turn_order::qry::sequence(&state, 100), vec![200]);

    let playing = state.clone().apply(SeqPlay::Enable(100)).unwrap();
    assert_eq!(turn_state::qry::get(&playing, 100), TurnStatus::Active);
    assert_eq!(turn_state::qry::get(&playing, 200), TurnStatus::Available);
    assert_eq!(seq_play::qry::new_turn_init_state(&playing, 100), TurnStatus::Available);
    assert_eq!(
        SeqPlay::Enable(100).apply_to(playing.clone()),
        Err(CmdErr::InvalidTransition)
    );

    let free = playing.apply(SeqPlay::Disable(100)).unwrap();
    assert_eq!(turn_state::qry::get(&free, 100), TurnStatus::Free);
    assert_eq!(turn_state::qry::get(&free, 200), TurnStatus::Free);
    assert!(SeqPlay::Disable(100).apply_to(free.clone()).is_err());

    let removed = free.apply(SeqPlay::RemoveTurn(200)).unwrap();
    assert_eq!(turn_order::qry::sequence(&removed, 100), Vec::<usize>::new());
    assert_eq!(turn_state::qry::get(&removed, 200), TurnStatus::NoTurn);
    assert_eq!(
        SeqPlay::AddTurn(100, 100).apply_to(removed),
        Err(CmdErr::PreconditionFailed)
    );
}

#[test]
fn hierarchy_counts_and_lineage() {
    let mut h = Hierarchy::new();
    assert_eq!(h.set_parent(1, 0), Ok(()));
    assert_eq!(h.set_parent(2, 0), Ok(()));
    assert_eq!(h.set_parent(3, 2), Ok(()));
    assert_eq!(h.set_parent(4, 3), Ok(()));
    assert_eq!(h.parent_count(), 3);
    assert_eq!(h.child_count(), 4);
    assert_eq!(h.children(0), vec![1, 2]);
    assert_eq!(h.lineage(4), vec![0, 2, 3, 4]);
    assert_eq!(h.ancestors(4), vec![0, 2, 3]);
    assert_eq!(h.ancestors(0), Vec::<usize>::new());

    assert_eq!(h.remove_parent(2), Ok(()));
    assert_eq!(h.parent_count(), 3);
    assert_eq!(h.child_count(), 3);
    assert_eq!(h.children(0), vec![1]);
    assert_eq!(h.lineage(4), vec![2, 3, 4]);

    assert_eq!(h.remove_parent(1), Ok(()));
    assert_eq!(h.parent_count(), 2);
    assert_eq!(h.child_count(), 2);
    assert_eq!(h.children(0), Vec::<usize>::new());
    assert!(!h.is_parent(0));
    assert_eq!(h.remove_parent(1), Err(CmdErr::NotFound));
}

#[test]
fn hierarchy_consistency() {
    let mut h = Hierarchy::new();
    assert_eq!(h.set_parent(5, 9), Ok(()));
    assert_eq!(h.parent(5), Some(9));
    assert!(h.children(9).contains(&5));
    assert!(h.is_child(5));
    assert!(h.is_parent(9));
    assert_eq!(h.set_parent(5, 9), Err(CmdErr::AlreadyExists));
    assert_eq!(h.set_parent(9, 9), Err(CmdErr::PreconditionFailed));
    assert_eq!(h.set_parent(9, 5), Err(CmdErr::PreconditionFailed));

    assert_eq!(h.set_parent(5, 7), Ok(()));
    assert_eq!(h.parent(5), Some(7));
    assert_eq!(h.children(9), Vec::<usize>::new());
    assert!(!h.is_parent(9));

    assert_eq!(h.remove_parent(5), Ok(()));
    assert_eq!(h.parent(5), None);
    assert!(!h.children(7).contains(&5));
    assert!(!h.is_parent(7));
}

#[test]
fn association_both_ways() {
    let mut a = Association::default();
    assert_eq!(a.assign(1, 10), Ok(()));
    assert!(a.has_assoc(&1));
    assert!(a.is_assoc_id(&10));
    assert_eq!(a.id_lookup(&10), 1);
    assert_eq!(a.assoc_id_lookup(&1), 10);
    assert_eq!(a.id_lookup(&11), 0);
    assert_eq!(a.assoc_id_lookup(&2), 0);
}

#[test]
fn error_builders() {
    assert!(matches!(cmd_err("x"), Error::Command(s) if s == "x"));
    assert!(matches!(qry_err("y"), Error::Query(s) if s == "y"));
    assert!(matches!(err("z"), Error::Generic(s) if s == "z"));
}

#[test]
fn player_remove_and_rename() {
    let state = State::default()
        .apply(Player::Add(1, "P".to_string()))
        .apply(Player::Rename(1, "Q".to_string()))
        .unwrap();
    assert_eq!(name::qry::get(&state, 1), "Q");
    let state = state.apply(Player::Remove(1)).unwrap();
    assert_eq!(registry::id(&state, 1), 0);
}

#[test]
fn closures_are_commands() {
    let state = AdHoc(|state: State| Entity::Add(100).apply_to(state))
        .apply_to_default()
        .unwrap();
    assert!(yourupnext::model::entity::qry::present(&state, 100));
    let batch: Vec<AdHoc<fn(State) -> CmdResult<State>>> = vec![
        AdHoc(|state: State| name::cmd::set(state, 100, "N")),
        AdHoc(|state: State| description::cmd::set(state, 100, "D")),
    ];
    let state = batch.apply_to(state).unwrap();
    assert_eq!(name::qry::get(&state, 100), "N");
    assert_eq!(description::qry::get(&state, 100), "D");
}
