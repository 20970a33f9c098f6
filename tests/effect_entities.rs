use yourupnext::applicable::CmdErr;
use yourupnext::subsys::effect::entity::{locate, Collection, Items, Ref};
use yourupnext::subsys::effect::{Action, State};

#[test]
fn mod_initialize_action() {
    assert_eq!(Action::Init.apply(State::default()), Ok(State::default()));
    assert_eq!(
        Action::apply_all(vec![Action::Init], State::default()),
        Ok(State::default())
    );
}

#[test]
fn add_item() {
    let actions = vec![
        Action::Init,
        Action::AddEntity(Ref::Nothing),
        Action::AddEntity(Ref::Nothing),
    ];

    let state = Action::apply_all(actions, State::default());

    let mut entities = Items::default();
    entities.insert(0, Ref::Nothing);
    entities.insert(1, Ref::Nothing);

    let target = Collection { next_id: 2, items: entities };

    assert_eq!(state.unwrap().entities, target);
}

#[test]
fn remove_effect_entity() {
    let state = Action::apply_all(
        vec![Action::AddEntity(Ref::Nothing), Action::RemoveEntity(0)],
        State::default(),
    )
    .unwrap();
    assert!(state.entities.items.is_empty());
    assert_eq!(state.entities.next_id, 1);
    assert_eq!(Action::RemoveEntity(0).apply(state), Err(CmdErr::NotFound));
}

#[test]
fn locate_finds_a_holder() {
    let mut items = Items::default();
    assert_eq!(locate(&items, &Ref::Nothing), None);
    items.insert(4, Ref::Nothing);
    assert_eq!(locate(&items, &Ref::Nothing), Some(4));
}
