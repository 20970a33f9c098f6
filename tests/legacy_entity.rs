use std::collections::HashMap;

use yourupnext::entity::{Entities, Entity};
use yourupnext::event;

#[test]
fn add_entity_action_ok() {
    let base_state = event::State::default();
    let actions = vec![event::Action::AddEntity("Jenna".to_string())];
    let result = event::Action::apply_all(actions, base_state);

    let mut target: Entities = HashMap::new();
    target.insert(0, Entity::new("Jenna".to_string()));

    match result {
        Ok(result) => assert_eq!(result.entity.entities, target),
        Err(_) => assert!(false),
    }
}

#[test]
fn add_entity_action_err_no_empty_names() {
    let result = event::Action::AddEntity("".to_string()).apply(event::State::default());
    assert!(result.is_err());
}

#[test]
fn add_entity_action_ok_duplicate() {
    let base_state = event::State::default();
    let actions = vec![
        event::Action::AddEntity("Jenna".to_string()),
        event::Action::AddEntity("Jenna".to_string()),
    ];
    let result = event::Action::apply_all(actions, base_state);

    let mut target: Entities = HashMap::new();
    target.insert(0, Entity::new("Jenna".to_string()));
    target.insert(1, Entity::new("Jenna".to_string()));

    match result {
        Ok(result) => assert_eq!(result.entity.entities, target),
        Err(_) => assert!(false),
    }
}

#[test]
fn rename_entity_action_ok() {
    let base_state = event::State::default();
    let actions = vec![
        event::Action::AddEntity("Jenna".to_string()),
        event::Action::RenameEntity(0, "Jade".to_string()),
    ];
    let result = event::Action::apply_all(actions, base_state);

    let mut target: Entities = HashMap::new();
    target.insert(0, Entity::new("Jade".to_string()));

    match result {
        Ok(result) => assert_eq!(result.entity.entities, target),
        Err(_) => assert!(false),
    }
}

#[test]
fn rename_entity_action_err_missing_entity() {
    let base_state = event::State::default();
    let actions = vec![
        event::Action::AddEntity("Jenna".to_string()),
        event::Action::RenameEntity(1, "Jade".to_string()),
    ];
    let result = event::Action::apply_all(actions, base_state);
    assert!(result.is_err());
}

#[test]
fn rename_entity_action_err_same_name() {
    let base_state = event::State::default();
    let actions = vec![
        event::Action::AddEntity("Jenna".to_string()),
        event::Action::RenameEntity(0, "Jenna".to_string()),
    ];
    let result = event::Action::apply_all(actions, base_state);
    assert!(result.is_err());
}

#[test]
fn remove_entity_action_ok() {
    let base_state = event::State::default();
    let actions = vec![
        event::Action::AddEntity("Jenna".to_string()),
        event::Action::RemoveEntity(0),
    ];
    let result = event::Action::apply_all(actions, base_state);

    let target: Entities = HashMap::new();

    match result {
        Ok(result) => assert_eq!(result.entity.entities, target),
        Err(_) => assert!(false),
    }
}

#[test]
fn remove_entity_action_err() {
    let base_state = event::State::default();
    let actions = vec![
        event::Action::AddEntity("Jenna".to_string()),
        event::Action::RemoveEntity(1),
    ];
    let result = event::Action::apply_all(actions, base_state);
    assert!(result.is_err())
}

#[test]
fn entity_by_id_copies_the_name() {
    let state = event::Action::AddEntity("Jenna".to_string())
        .apply(event::State::default())
        .unwrap();
    assert_eq!(yourupnext::entity::by_id(&state, 0), Some(Entity::new("Jenna".to_string())));
    assert_eq!(yourupnext::entity::by_id(&state, 1), None);
}
