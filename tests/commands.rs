use yourupnext::applicable::{Applicable, ApplicableChainable, CmdErr};
use yourupnext::command::Cmd;
use yourupnext::component::entity_type::EntityType;
use yourupnext::model::character::{self, Character};
use yourupnext::model::entity::{self, Entity};
use yourupnext::model::player::{self, Player};
use yourupnext::model::scenario::{self, Scenario};
use yourupnext::registry::{Id, PubId};
use yourupnext::state::State;

#[test]
fn add_player() {
    let commands = vec![Cmd::AddPlayer(1337, "Original Name".to_string())];
    let state = Cmd::apply_all(commands, State::default()).unwrap();

    let id = state.registry.pub_dict.get(&1337).unwrap().to_owned();
    assert_eq!(id, 1 as Id);

    let pub_id = state.registry.id_dict.get(&1).unwrap().to_owned();
    assert_eq!(pub_id, 1337 as PubId);

    let entity_type = state.entity_type.get(id).unwrap();
    assert_eq!(entity_type, EntityType::Player);

    let name = state.name.get(id).unwrap();
    assert_eq!(name, "Original Name".to_string());
}

#[test]
fn rename_player() {
    let commands = vec![
        Cmd::AddPlayer(1337, "Original Name".to_string()),
        Cmd::RenamePlayer(1337, "Renamed Name".to_string()),
    ];
    let state = Cmd::apply_all(commands, State::default()).unwrap();

    let id = state.registry.pub_dict.get(&1337).unwrap().to_owned();
    let name = state.name.get(id).unwrap();

    assert_eq!(name, "Renamed Name".to_string());
}

#[test]
fn remove_player() {
    let commands = vec![
        Cmd::AddPlayer(1337, "Original Name".to_string()),
        Cmd::RemovePlayer(1337),
    ];
    let state = Cmd::apply_all(commands, State::default()).unwrap();

    let id = state.registry.pub_dict.get(&1337);
    assert!(id.is_none());
}

#[test]
fn add_character() {
    let commands = vec![Cmd::AddCharacter(1337, "Original Name".to_string())];
    let state = Cmd::apply_all(commands, State::default()).unwrap();

    let id = state.registry.pub_dict.get(&1337).unwrap().to_owned();
    assert_eq!(id, 1 as Id);

    let pub_id = state.registry.id_dict.get(&1).unwrap().to_owned();
    assert_eq!(pub_id, 1337 as PubId);

    let entity_type = state.entity_type.get(id).unwrap();
    assert_eq!(entity_type, EntityType::Character);

    let name = state.name.get(id).unwrap();
    assert_eq!(name, "Original Name".to_string());
}

#[test]
fn rename_character() {
    let commands = vec![
        Cmd::AddCharacter(1337, "Original Name".to_string()),
        Cmd::RenameCharacter(1337, "Renamed Name".to_string()),
    ];
    let state = Cmd::apply_all(commands, State::default()).unwrap();

    let id = state.registry.pub_dict.get(&1337).unwrap().to_owned();
    let name = state.name.get(id).unwrap();

    assert_eq!(name, "Renamed Name".to_string());
}

#[test]
fn remove_character() {
    let commands = vec![
        Cmd::AddCharacter(1337, "Original Name".to_string()),
        Cmd::RemoveCharacter(1337),
    ];
    let state = Cmd::apply_all(commands, State::default()).unwrap();

    let id = state.registry.pub_dict.get(&1337);
    assert!(id.is_none());
}

#[test]
fn batch_of_commands_stops_at_first_refusal() {
    let commands = vec![
        Cmd::AddPlayer(1, "A".to_string()),
        Cmd::AddPlayer(1, "B".to_string()),
        Cmd::AddPlayer(2, "C".to_string()),
    ];
    assert_eq!(Cmd::apply_all(commands, State::default()), Err(CmdErr::AlreadyExists));

    let nested = Cmd::Batch(vec![
        Cmd::AddCharacter(10, "A".to_string()),
        Cmd::Batch(vec![Cmd::AddPlayer(20, "B".to_string())]),
        Cmd::AssignCharacterPlayer(10, 20),
    ]);
    let state = nested.apply_to_default().unwrap();
    assert_eq!(character::qry::player(&state, 10), Some(20));
}

#[test]
fn chained_commands() {
    let state = State::default()
        .apply(Player::Add(100, "APlayer".to_string()))
        .apply(Character::Add(200, "ACharacter".to_string()))
        .unwrap();
    assert!(character::qry::present(&state, 200));
    assert!(player::qry::present(&state, 100));
    assert_eq!(player::qry::name(&state, 100), "APlayer".to_string());
    assert_eq!(player::qry::id(&state, 100), 1);
    assert_eq!(player::qry::id(&state, 200), 0);

    let refused = State::default()
        .apply(Entity::Remove(5))
        .apply(Character::Add(200, "ACharacter".to_string()));
    assert_eq!(refused, Err(CmdErr::NotFound));
}

#[test]
fn vector_of_commands_is_a_command() {
    let state = vec![
        Entity::Add(100),
        Entity::Classify(100, EntityType::Item),
        Entity::Name(100, "Lamp".to_string()),
    ]
    .apply_to_default()
    .unwrap();
    assert_eq!(entity::qry::kind(&state, 100), EntityType::Item);
    assert_eq!(entity::qry::name(&state, 100), "Lamp".to_string());
    assert_eq!(entity::qry::id(&state, 100), 1);
    assert_eq!(entity::qry::pub_id(&state, 1), Some(100));
    assert!(entity::qry::present(&state, 100));
    assert!(!entity::qry::present(&state, 1));
}

#[test]
fn entity_classification() {
    let state = State::default();
    assert_eq!(entity::qry::kind(&state, 100), EntityType::Missing);
    let state = Entity::Add(100).apply_to(state).unwrap();
    assert_eq!(entity::qry::kind(&state, 100), EntityType::Generic);
    let state = Entity::Classify(100, EntityType::Player).apply_to(state).unwrap();
    assert!(entity::qry::is(&state, 100, EntityType::Player));
    assert_eq!(
        Entity::Classify(100, EntityType::Item).apply_to(state.clone()),
        Err(CmdErr::AlreadyExists)
    );
    assert_eq!(
        Entity::Classify(100, EntityType::Missing).apply_to(state.clone()),
        Err(CmdErr::PreconditionFailed)
    );
    assert_eq!(
        Entity::Classify(7, EntityType::Item).apply_to(state),
        Err(CmdErr::NotFound)
    );
}

#[test]
fn character_player_assignment() {
    let state = State::default()
        .apply(Character::Add(200, "ACharacter".to_string()))
        .apply(Player::Add(100, "APlayer".to_string()))
        .apply(Character::AssignPlayer(200, 100))
        .unwrap();
    assert_eq!(character::qry::player(&state, 200), Some(100));
    assert_eq!(
        Character::AssignPlayer(200, 100).apply_to(state.clone()),
        Err(CmdErr::AlreadyExists)
    );
    assert_eq!(
        Character::AssignPlayer(100, 200).apply_to(state.clone()),
        Err(CmdErr::PreconditionFailed)
    );

    let released = state.clone().apply(Character::RemovePlayer(200)).unwrap();
    assert_eq!(character::qry::player(&released, 200), None);
    assert_eq!(
        Character::RemovePlayer(200).apply_to(released),
        Err(CmdErr::NotFound)
    );

    let removed = state.apply(Character::Remove(200)).unwrap();
    assert_eq!(character::qry::id(&removed, 200), 0);
    assert_eq!(removed.character_player.child_count(), 0);
}

#[test]
fn remove_player_from_all_characters() {
    let state = State::default()
        .apply(Player::Add(100, "APlayer".to_string()))
        .apply(Character::Add(200, "ACharacter".to_string()))
        .apply(Character::AssignPlayer(200, 100))
        .apply(Character::Add(300, "BCharacter".to_string()))
        .apply(Character::AssignPlayer(300, 100))
        .unwrap();
    assert_eq!(character::qry::player(&state, 200), Some(100));
    assert_eq!(character::qry::player(&state, 300), Some(100));

    let state = state.apply(Character::RemovePlayerFromAll(100)).unwrap();
    assert_eq!(character::qry::player(&state, 200), None);
    assert_eq!(character::qry::player(&state, 300), None);
    assert!(!state.character_player.is_parent(1));
}

#[test]
fn scenario_model() {
    let state = State::default()
        .apply(Scenario::Add(10))
        .apply(Scenario::Rename(10, "Keep".to_string()))
        .apply(Scenario::Describe(10, "A ruined keep".to_string()))
        .apply(Character::Add(20, "Hero".to_string()))
        .apply(Scenario::CaptureEntity(10, 20))
        .unwrap();
    assert!(scenario::qry::present(&state, 10));
    assert_eq!(scenario::qry::name(&state, 10), "Keep".to_string());
    assert_eq!(scenario::qry::description(&state, 10), "A ruined keep".to_string());
    assert_eq!(scenario::qry::find_character(&state, 20), Some(10));
    assert_eq!(scenario::qry::id(&state, 20), 0);

    let released = state.clone().apply(Scenario::ReleaseEntity(20)).unwrap();
    assert_eq!(scenario::qry::find_character(&released, 20), None);
    let all_released = state.clone().apply(Scenario::ReleaseAllEntities(10)).unwrap();
    assert_eq!(scenario::qry::find_character(&all_released, 20), None);
    assert_eq!(
        Scenario::CaptureEntity(20, 10).apply_to(state),
        Err(CmdErr::PreconditionFailed)
    );
}
