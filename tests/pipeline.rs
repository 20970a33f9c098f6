use yourupnext::applicable::{
    Applicable, ApplicableChainable, ApplicableWithChainable, CmdErr,
};
use yourupnext::model::character::{self, Character};
use yourupnext::model::entity::Entity;
use yourupnext::queryable::{ApplicableQueryResult, Queryable};
use yourupnext::state::State;

#[test]
fn apply_with_makes_commands_from_data() {
    let state = State::default()
        .apply_with(vec![100, 200, 300], |pub_id| {
            Character::Add(pub_id, "Character".to_string())
        })
        .unwrap();
    assert!(character::qry::present(&state, 100));
    assert!(character::qry::present(&state, 300));
    assert_eq!(character::qry::id(&state, 300), 3);
}

#[test]
fn chained_apply_with() {
    let state = State::default()
        .apply(Character::Add(100, "ACharacter".to_string()))
        .apply_with(vec![(200, "BCharacter"), (300, "CCharacter")], |(pub_id, name)| {
            Character::Add(pub_id, name.to_string())
        })
        .unwrap();
    assert_eq!(character::qry::name(&state, 300), "CCharacter".to_string());

    let refused = State::default()
        .apply(Entity::Remove(1))
        .apply_with(vec![1, 2], |pub_id| Entity::Add(pub_id));
    assert_eq!(refused, Err(CmdErr::NotFound));

    let stopped = State::default().apply_with(vec![7, 7, 8], |pub_id| Entity::Add(pub_id));
    assert_eq!(stopped, Err(CmdErr::AlreadyExists));
}

#[test]
fn query_carries_the_state() {
    let answered = State::default().query(|_state: &State| Ok("hooray".to_string()));
    assert_eq!(answered, Ok((State::default(), "hooray".to_string())));

    let refused: Result<(State, usize), CmdErr> =
        State::default().query(|_state: &State| Err(CmdErr::NotFound));
    assert_eq!(refused, Err(CmdErr::NotFound));
}

#[test]
fn query_then_command() {
    let state = State::default()
        .query(|_state: &State| Ok("character name"))
        .apply_with(|character_name| Character::Add(100, character_name.to_string()))
        .unwrap();
    assert_eq!(character::qry::name(&state, 100), "character name".to_string());

    let refused = State::default()
        .query(|_state: &State| Err::<&str, CmdErr>(CmdErr::PreconditionFailed))
        .apply_with(|name| Character::Add(100, name.to_string()));
    assert_eq!(refused, Err(CmdErr::PreconditionFailed));
}

#[test]
fn default_application() {
    let state = Character::Add(1, "A".to_string()).apply_to_default().unwrap();
    assert!(character::qry::present(&state, 1));
}
