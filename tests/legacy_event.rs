use yourupnext::applicable::CmdErr;
use yourupnext::event;
use yourupnext::event::Action;
use yourupnext::scenario;

#[test]
fn event_initialize_action() {
    assert_eq!(Action::Init.apply(event::State::default()), Ok(event::State::default()));
    assert_eq!(
        Action::apply_all(vec![Action::Init], event::State::default()),
        Ok(event::State::default())
    );
}

#[test]
fn rename_action_ok() {
    assert_eq!(
        event::Action::RenameScenario("New name".to_string()).apply(event::State::default()),
        Ok(event::State {
            scenario: scenario::State { name: "New name".to_string() },
            ..event::State::default()
        })
    );
}

#[test]
fn rename_action_err() {
    let actions = vec![
        Action::RenameScenario("New name".to_string()),
        Action::RenameScenario("".to_string()),
    ];
    let should_be_err = Action::apply_all(actions, event::State::default());
    assert!(should_be_err.is_err());

    let actions = vec![
        Action::RenameScenario("New name".to_string()),
        Action::RenameScenario("New name".to_string()),
    ];
    let should_be_err = Action::apply_all(actions, event::State::default());
    assert!(should_be_err.is_err());
}

#[test]
fn batch_stops_at_first_refusal() {
    let actions = vec![
        Action::AddEntity("Jenna".to_string()),
        Action::RemoveEntity(7),
        Action::AddEntity("Jade".to_string()),
    ];
    assert_eq!(
        Action::apply_all(actions, event::State::default()),
        Err(CmdErr::NotFound)
    );
}

#[test]
fn nested_batch_runs_in_order() {
    let actions = vec![
        Action::Proc(vec![
            Action::AddEntity("Jenna".to_string()),
            Action::Noop,
            Action::RenameEntity(0, "Jade".to_string()),
        ]),
        Action::AddPlayer("Kim".to_string()),
    ];
    let state = Action::apply_all(actions, event::State::default()).unwrap();
    assert_eq!(state.entity.entities.get(&0).unwrap().name, "Jade".to_string());
    assert_eq!(state.player.players.len(), 1);
}

#[test]
fn default_scenario_name() {
    assert_eq!(event::State::default().scenario.name, "Unnamed Scenario".to_string());
}
