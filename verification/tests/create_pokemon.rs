use pokedex::create_pokemon::{execute, Error, Request, Response};
use pokedex::entities::{PokemonName, PokemonNumber, PokemonTypes};
use pokedex::repository::{InMemoryRepository, Repository};

#[test]
fn it_should_return_the_pokemon_number_otherwise() {
    let mut repo = InMemoryRepository::new();
    let number = 25;
    let req = Request {
        number,
        name: String::from("Pikachu"),
        types: vec![String::from("Electric")],
    };

    let res = execute(&mut repo, req);

    match res {
        Ok(Response { number, name, types }) => {
            assert_eq!(number, 25);
            assert_eq!(name, String::from("Pikachu"));
            assert_eq!(types, vec![String::from("Electric")])
        },
        _ => unreachable!(),
    }
}

#[test]
fn it_should_return_a_conflict_error_when_pokemon_number_already_exists() {
    let number = PokemonNumber::try_from(25).unwrap();
    let name = PokemonName::try_from(String::from("Pikachu")).unwrap();
    let types = PokemonTypes::try_from(vec![String::from("Electric")]).unwrap();
    let mut repo = InMemoryRepository::new();
    let _ = repo.insert(number, name, types);

    let req = Request {
        number: number.value(),
        name: String::from("Charmander"),
        types: vec![String::from("Fire")],
    };

    let res = execute(&mut repo, req);

    match res {
        Err(Error::Conflict) => {},
        _ => unreachable!(),
    }
}

#[test]
fn it_should_return_an_unexpected_error_happens() {
    let mut repo = InMemoryRepository::new().with_error();
    let number = 25;
    let req = Request {
        number,
        name: String::from("Pikachu"),
        types: vec![String::from("Electric")],
    };

    let res = execute(&mut repo, req);

    match res {
        Err(Error::Unknown) => {},
        _ => unreachable!(),
    }
}
