use pokedex::create_pokemon;
use pokedex::delete_pokemon;
use pokedex::entities::{PokemonName, PokemonNumber, PokemonType, PokemonTypes};
use pokedex::fetch_all_pokemon;
use pokedex::fetch_pokemon;
use pokedex::repository::{
    DeleteError, FetchAllError, FetchOneError, InMemoryRepository, InsertError, Repository,
};

#[test]
fn number_construction_succeeds_exactly_inside_the_open_range() {
    assert!(PokemonNumber::try_from(0).is_err());
    assert!(PokemonNumber::try_from(1).is_ok());
    assert!(PokemonNumber::try_from(898).is_ok());
    assert!(PokemonNumber::try_from(899).is_err());
    assert!(PokemonNumber::try_from(u16::MAX).is_err());
}

#[test]
fn number_round_trip_returns_the_raw_value() {
    assert_eq!(PokemonNumber::try_from(151).unwrap().value(), 151);
}

#[test]
fn name_construction_succeeds_exactly_on_non_empty_text() {
    assert!(PokemonName::try_from(String::from("")).is_err());
    assert!(PokemonName::try_from(String::from(" ")).is_ok());
    assert!(PokemonName::try_from(String::from("Bulbasaur")).is_ok());
}

#[test]
fn name_round_trip_returns_the_raw_text() {
    let name = PokemonName::try_from(String::from("Bulbasaur")).unwrap();
    assert_eq!(name.into_raw(), String::from("Bulbasaur"));
}

#[test]
fn type_construction_is_an_exact_case_sensitive_match() {
    assert!(PokemonType::try_from(String::from("Electric")).is_ok());
    assert!(PokemonType::try_from(String::from("Fire")).is_ok());
    assert!(PokemonType::try_from(String::from("electric")).is_err());
    assert!(PokemonType::try_from(String::from("Water")).is_err());
    assert!(PokemonType::try_from(String::from("")).is_err());
}

#[test]
fn types_construction_rejects_empty_and_any_invalid_element() {
    assert!(PokemonTypes::try_from(vec![]).is_err());
    assert!(PokemonTypes::try_from(vec![String::from("Electric"), String::from("Water")])
        .is_err());
    assert!(PokemonTypes::try_from(vec![String::from("Electric"), String::from("Fire")])
        .is_ok());
}

#[test]
fn types_allow_duplicates_and_round_trip_in_order() {
    let raw = vec![
        String::from("Fire"),
        String::from("Electric"),
        String::from("Fire"),
    ];
    let types = PokemonTypes::try_from(raw.clone()).unwrap();
    assert_eq!(types.into_raw(), raw);
}

#[test]
fn inserting_the_same_number_twice_yields_success_then_conflict() {
    let mut repo = InMemoryRepository::new();
    let first = repo.insert(
        PokemonNumber::pikachu(),
        PokemonName::pikachu(),
        PokemonTypes::pikachu(),
    );
    assert!(first.is_ok());
    let second = repo.insert(
        PokemonNumber::pikachu(),
        PokemonName::try_from(String::from("Raichu")).unwrap(),
        PokemonTypes::pikachu(),
    );
    assert!(matches!(second, Err(InsertError::Conflict)));
}

#[test]
fn delete_then_fetch_yields_not_found() {
    let mut repo = InMemoryRepository::new();
    let req = create_pokemon::Request {
        number: 25,
        name: String::from("Pikachu"),
        types: vec![String::from("Electric")],
    };
    assert!(create_pokemon::execute(&mut repo, req).is_ok());
    let deleted = delete_pokemon::execute(&mut repo, delete_pokemon::Request { number: 25 });
    assert!(deleted.is_ok());
    let fetched = fetch_pokemon::execute(&repo, fetch_pokemon::Request { number: 25 });
    assert!(matches!(fetched, Err(fetch_pokemon::Error::NotFound)));
}

#[test]
fn fetch_one_before_any_insert_yields_not_found() {
    let repo = InMemoryRepository::new();
    let res = repo.fetch_one(PokemonNumber::pikachu());
    assert!(matches!(res, Err(FetchOneError::NotFound)));
}

#[test]
fn create_with_number_zero_yields_bad_request() {
    let mut repo = InMemoryRepository::new();
    let req = create_pokemon::Request {
        number: 0,
        name: String::from("X"),
        types: vec![String::from("Fire")],
    };
    let res = create_pokemon::execute(&mut repo, req);
    assert!(matches!(res, Err(create_pokemon::Error::BadRequest)));
}

#[test]
fn forced_failure_mode_turns_every_operation_into_unknown() {
    let mut repo = InMemoryRepository::new().with_error();
    let insert = repo.insert(
        PokemonNumber::pikachu(),
        PokemonName::pikachu(),
        PokemonTypes::pikachu(),
    );
    assert!(matches!(insert, Err(InsertError::Unknown)));
    let one = repo.fetch_one(PokemonNumber::pikachu());
    assert!(matches!(one, Err(FetchOneError::Unknown)));
    let all = repo.fetch_all();
    assert!(matches!(all, Err(FetchAllError::Unknown)));
    let gone = repo.delete(PokemonNumber::pikachu());
    assert!(matches!(gone, Err(DeleteError::Unknown)));
    let listed = fetch_all_pokemon::execute(&repo);
    assert!(matches!(listed, Err(fetch_all_pokemon::Error::Unknown)));
}

#[test]
fn fetch_all_returns_every_record_in_insertion_order() {
    let mut repo = InMemoryRepository::new();
    let first = create_pokemon::Request {
        number: 25,
        name: String::from("Pikachu"),
        types: vec![String::from("Electric")],
    };
    let second = create_pokemon::Request {
        number: 4,
        name: String::from("Charmander"),
        types: vec![String::from("Fire")],
    };
    assert!(create_pokemon::execute(&mut repo, first).is_ok());
    assert!(create_pokemon::execute(&mut repo, second).is_ok());

    let all = fetch_all_pokemon::execute(&repo).unwrap();
    assert_eq!(all.len(), 2);
    assert_eq!(all[0].number, 25);
    assert_eq!(all[0].name, String::from("Pikachu"));
    assert_eq!(all[0].types, vec![String::from("Electric")]);
    assert_eq!(all[1].number, 4);
    assert_eq!(all[1].name, String::from("Charmander"));
    assert_eq!(all[1].types, vec![String::from("Fire")]);
}

#[test]
fn created_record_is_returned_unchanged() {
    let mut repo = InMemoryRepository::new();
    let req = create_pokemon::Request {
        number: 25,
        name: String::from("Pikachu"),
        types: vec![String::from("Electric")],
    };
    let res = create_pokemon::execute(&mut repo, req).unwrap();
    assert_eq!(res.number, 25);
    assert_eq!(res.name, String::from("Pikachu"));
    assert_eq!(res.types, vec![String::from("Electric")]);
}
