use yourupnext::applicable::CmdErr;
use yourupnext::event::{Action, State};
use yourupnext::subsys::round::{Round, TurnStatus};

fn three_turns(a: i8, b: i8, c: i8) -> State {
    Action::apply_all(
        vec![
            Action::AddEntity("Jenna".to_string()),
            Action::AddEntity("Jessica".to_string()),
            Action::AddEntity("Kimberly".to_string()),
            Action::AddTurn(0, a),
            Action::AddTurn(1, b),
            Action::AddTurn(2, c),
        ],
        State::default(),
    )
    .unwrap()
}

#[test]
fn add_turn_is_available_at_the_end() {
    let state = three_turns(10, 10, 10);
    assert_eq!(state.round.sequence, vec![0, 1, 2]);
    assert_eq!(state.round.turn_states.get(2), Some(TurnStatus::Available));
    assert_eq!(state.round.initiatives.get(1), Some(10));
}

#[test]
fn add_turn_twice_fails() {
    let mut round = Round::default();
    assert_eq!(round.add_turn(4, 1), Ok(()));
    assert_eq!(round.add_turn(4, 2), Err(CmdErr::AlreadyExists));
    assert_eq!(round.sequence, vec![4]);
}

#[test]
fn remove_turn_of_non_member_fails() {
    let mut round = Round::default();
    assert_eq!(round.remove_turn(1), Err(CmdErr::NotFound));
    round.add_turn(1, 0).unwrap();
    round.add_turn(2, 0).unwrap();
    assert_eq!(round.remove_turn(1), Ok(()));
    assert_eq!(round.sequence, vec![2]);
    assert!(!round.turn_states.is_set(1));
    assert!(!round.initiatives.is_set(1));
    assert_eq!(round.remove_turn(1), Err(CmdErr::NotFound));
}

#[test]
fn order_turns_by_initiative_ascending() {
    let state = Action::OrderTurnsByInitiative.apply(three_turns(10, -3, 5)).unwrap();
    assert_eq!(state.round.sequence, vec![1, 2, 0]);
}

#[test]
fn order_turns_by_initiative_ties_by_id() {
    let mut round = Round::default();
    round.add_turn(9, 4).unwrap();
    round.add_turn(3, 4).unwrap();
    round.add_turn(5, -1).unwrap();
    round.add_turn(1, 4).unwrap();
    assert_eq!(round.order_turns_by_initiative(), Ok(()));
    assert_eq!(round.sequence, vec![5, 1, 3, 9]);
}

#[test]
fn order_turns_by_initiative_needs_two_turns_and_no_play() {
    assert_eq!(
        Action::OrderTurnsByInitiative.apply(State::default()),
        Err(CmdErr::PreconditionFailed)
    );
    let one = Action::apply_all(
        vec![Action::AddEntity("Jenna".to_string()), Action::AddTurn(0, 3)],
        State::default(),
    )
    .unwrap();
    assert!(Action::OrderTurnsByInitiative.apply(one).is_err());

    let mut round = Round::default();
    round.add_turn(1, 3).unwrap();
    round.add_turn(2, 1).unwrap();
    round.update_turn_state(1, TurnStatus::Completed).unwrap();
    round.update_turn_state(2, TurnStatus::Completed).unwrap();
    round.next_round().unwrap();
    assert_eq!(round.order_turns_by_initiative(), Err(CmdErr::InvalidTransition));
    assert_eq!(round.sequence, vec![1, 2]);
}

#[test]
fn move_turn_legality() {
    let state = three_turns(5, 10, 15);
    let moved = Action::MoveTurn(0, 1).apply(state.clone()).unwrap();
    assert_eq!(moved.round.sequence, vec![1, 0, 2]);
    assert_eq!(Action::MoveTurn(0, 0).apply(state.clone()), Err(CmdErr::PreconditionFailed));
    assert_eq!(Action::MoveTurn(0, 5).apply(state.clone()), Err(CmdErr::OutOfRange));
    assert_eq!(Action::MoveTurn(0, -1).apply(state.clone()), Err(CmdErr::OutOfRange));
    assert_eq!(Action::MoveTurn(3, 1).apply(state.clone()), Err(CmdErr::NotFound));
}

#[test]
fn move_turn_every_direction() {
    let state = three_turns(5, 10, 15);
    let check = |id: usize, offset: i8, expected: Vec<usize>| {
        let moved = Action::MoveTurn(id, offset).apply(state.clone()).unwrap();
        assert_eq!(moved.round.sequence, expected);
    };
    check(0, 1, vec![1, 0, 2]);
    check(0, 2, vec![1, 2, 0]);
    check(1, -1, vec![1, 0, 2]);
    check(1, 1, vec![0, 2, 1]);
    check(2, -1, vec![0, 2, 1]);
    check(2, -2, vec![2, 0, 1]);
    for (id, offset) in [(0, -1), (0, 3), (1, -2), (1, 2), (2, -3), (2, 1)] {
        assert!(Action::MoveTurn(id, offset).apply(state.clone()).is_err());
    }
}

#[test]
fn move_turn_before_another() {
    let state = three_turns(10, 10, 10);
    let moved = Action::MoveTurnBefore(0, 2).apply(state.clone()).unwrap();
    assert_eq!(moved.round.sequence, vec![1, 0, 2]);
    let moved = Action::MoveTurnBefore(2, 0).apply(state.clone()).unwrap();
    assert_eq!(moved.round.sequence, vec![2, 0, 1]);
    assert_eq!(
        Action::MoveTurnBefore(0, 1).apply(state.clone()),
        Err(CmdErr::PreconditionFailed)
    );
    assert_eq!(Action::MoveTurnBefore(0, 8).apply(state.clone()), Err(CmdErr::NotFound));
}

#[test]
fn next_round_gating() {
    let state = Action::apply_all(
        vec![
            Action::CompleteTurn(0),
            Action::SkipTurn(1),
            Action::DelayTurn(2),
            Action::NextRound,
        ],
        three_turns(10, 10, 15),
    )
    .unwrap();
    assert_eq!(state.round.count, 1);
    assert_eq!(state.round.turn_states.get(0), Some(TurnStatus::Available));
    assert_eq!(state.round.turn_states.get(1), Some(TurnStatus::Available));
    assert_eq!(state.round.turn_states.get(2), Some(TurnStatus::Held(1)));

    let pending = Action::apply_all(
        vec![Action::CompleteTurn(0), Action::ActivateTurn(1), Action::SkipTurn(2)],
        three_turns(10, 10, 15),
    )
    .unwrap();
    assert_eq!(Action::NextRound.apply(pending), Err(CmdErr::InvalidTransition));
    assert_eq!(
        Action::NextRound.apply(three_turns(1, 2, 3)),
        Err(CmdErr::InvalidTransition)
    );
    assert_eq!(Action::NextRound.apply(State::default()), Err(CmdErr::PreconditionFailed));
}

#[test]
fn held_turn_activation() {
    let held_first = Action::apply_all(vec![Action::DelayTurn(0)], three_turns(1, 1, 1)).unwrap();
    let active = Action::ActivateDelayedTurn(0, 2).apply(held_first.clone()).unwrap();
    assert_eq!(active.round.turn_states.get(0), Some(TurnStatus::Active));

    let held_last = Action::apply_all(vec![Action::DelayTurn(2)], three_turns(1, 1, 1)).unwrap();
    assert_eq!(
        Action::ActivateDelayedTurn(2, 0).apply(held_last),
        Err(CmdErr::PreconditionFailed)
    );
    assert_eq!(
        Action::ActivateDelayedTurn(1, 0).apply(held_first),
        Err(CmdErr::InvalidTransition)
    );
}

#[test]
fn held_turn_from_last_round_activates_after_its_trigger() {
    let mut round = Round::default();
    round.add_turn(1, 0).unwrap();
    round.add_turn(2, 0).unwrap();
    round.update_turn_state(1, TurnStatus::Completed).unwrap();
    round.update_turn_state(2, TurnStatus::Held(0)).unwrap();
    round.next_round().unwrap();
    assert_eq!(round.activate_delayed_turn(2, 1), Ok(()));
    assert_eq!(round.turn_states.get(2), Some(TurnStatus::Active));
}

#[test]
fn trigger_held_action_ok() {
    let state = Action::apply_all(
        vec![Action::DelayTurn(0), Action::TiggerDelayedTurn(0, 2)],
        three_turns(10, 10, 10),
    )
    .unwrap();
    assert_eq!(state.round.turn_states.get(0), Some(TurnStatus::Active));
    assert_eq!(state.round.turn_states.get(1), Some(TurnStatus::Available));
    assert_eq!(state.round.turn_states.get(2), Some(TurnStatus::Paused));
    assert_eq!(state.round.sequence, vec![1, 0, 2]);
}

#[test]
fn trigger_held_action_refusals() {
    let not_held = three_turns(10, 10, 10);
    assert!(Action::TiggerDelayedTurn(0, 2).apply(not_held).is_err());

    let already_before =
        Action::apply_all(vec![Action::DelayTurn(1)], three_turns(10, 10, 10)).unwrap();
    assert_eq!(
        Action::TiggerDelayedTurn(1, 2).apply(already_before),
        Err(CmdErr::PreconditionFailed)
    );

    let held_last_round = Action::apply_all(
        vec![
            Action::CompleteTurn(0),
            Action::CompleteTurn(1),
            Action::DelayTurn(2),
            Action::NextRound,
        ],
        three_turns(10, 10, 10),
    )
    .unwrap();
    assert!(Action::TiggerDelayedTurn(2, 0).apply(held_last_round).is_err());
    assert!(Action::TiggerDelayedTurn(0, 9).apply(three_turns(1, 2, 3)).is_err());
}
