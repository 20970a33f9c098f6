use std::collections::HashMap;

use yourupnext::player::Players;
use yourupnext::event;

#[test]
fn add_player_action_ok() {
    let base_state = event::State::default();
    let actions = vec![event::Action::AddPlayer("Jenna".to_string())];
    let result = event::Action::apply_all(actions, base_state);

    let mut target: Players = HashMap::new();
    target.insert(0, "Jenna".to_string());

    match result {
        Ok(result) => assert_eq!(result.player.players, target),
        Err(_) => assert!(false),
    }
}

#[test]
fn add_player_action_err_no_empty_names() {
    let result = event::Action::AddPlayer("".to_string()).apply(event::State::default());
    assert!(result.is_err());
}

#[test]
fn add_player_action_ok_duplicate() {
    let base_state = event::State::default();
    let actions = vec![
        event::Action::AddPlayer("Jenna".to_string()),
        event::Action::AddPlayer("Jenna".to_string()),
    ];
    let result = event::Action::apply_all(actions, base_state);

    let mut target: Players = HashMap::new();
    target.insert(0, "Jenna".to_string());
    target.insert(1, "Jenna".to_string());

    match result {
        Ok(result) => assert_eq!(result.player.players, target),
        Err(_) => assert!(false),
    }
}

#[test]
fn rename_player_action_ok() {
    let base_state = event::State::default();
    let actions = vec![
        event::Action::AddPlayer("Jenna".to_string()),
        event::Action::RenamePlayer(0, "Jade".to_string()),
    ];
    let result = event::Action::apply_all(actions, base_state);

    let mut target: Players = HashMap::new();
    target.insert(0, "Jade".to_string());

    match result {
        Ok(result) => assert_eq!(result.player.players, target),
        Err(_) => assert!(false),
    }
}

#[test]
fn rename_player_action_err_missing_player() {
    let base_state = event::State::default();
    let actions = vec![
        event::Action::AddPlayer("Jenna".to_string()),
        event::Action::RenamePlayer(1, "Jade".to_string()),
    ];
    let result = event::Action::apply_all(actions, base_state);
    assert!(result.is_err());
}

#[test]
fn rename_player_action_err_same_name() {
    let base_state = event::State::default();
    let actions = vec![
        event::Action::AddPlayer("Jenna".to_string()),
        event::Action::RenamePlayer(0, "Jenna".to_string()),
    ];
    let result = event::Action::apply_all(actions, base_state);
    assert!(result.is_err());
}

#[test]
fn remove_player_action_ok() {
    let base_state = event::State::default();
    let actions = vec![
        event::Action::AddPlayer("Jenna".to_string()),
        event::Action::RemovePlayer(0),
    ];
    let result = event::Action::apply_all(actions, base_state);

    let target: Players = HashMap::new();

    match result {
        Ok(result) => assert_eq!(result.player.players, target),
        Err(_) => assert!(false),
    }
}

#[test]
fn remove_player_action_err() {
    let base_state = event::State::default();
    let actions = vec![
        event::Action::AddPlayer("Jenna".to_string()),
        event::Action::RemovePlayer(1),
    ];
    let result = event::Action::apply_all(actions, base_state);
    assert!(result.is_err())
}

#[test]
fn player_ids_keep_counting_up() {
    let actions = vec![
        event::Action::AddPlayer("Jenna".to_string()),
        event::Action::AddPlayer("Jade".to_string()),
        event::Action::AddPlayer("Kim".to_string()),
    ];
    let state = event::Action::apply_all(actions, event::State::default()).unwrap();
    assert_eq!(state.player.next_player_id, 3);
    assert_eq!(state.player.players.get(&2), Some(&"Kim".to_string()));
    assert_eq!(state.player.players.len(), 3);
}
