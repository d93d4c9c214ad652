use pokedex::entities::{PokemonName, PokemonNumber, PokemonTypes};
use pokedex::fetch_pokemon::{execute, Error, Request};
use pokedex::repository::{InMemoryRepository, Repository};

#[test]
fn fetch_pokemon_it_should_return_an_unknown_error_when_an_unexpected_error_happens() {
    let repo = InMemoryRepository::new().with_error();
    let req = Request { number: PokemonNumber::pikachu().value() };

    let res = execute(&repo, req);

    match res {
        Err(Error::Unknown) => {},
        _ => unreachable!(),
    }
}

#[test]
fn it_should_return_a_bad_request_error_when_request_is_invalid() {
    let repo = InMemoryRepository::new();
    let req = Request { number: PokemonNumber::bad().value() };

    let res = execute(&repo, req);

    match res {
        Err(Error::BadRequest) => {},
        _ => unreachable!(),
    }
}

#[test]
fn fetch_pokemon_it_should_return_a_not_found_error_when_the_repo_doesnt_contain_the_pokemon() {
    let repo = InMemoryRepository::new();
    let req = Request { number: PokemonNumber::pikachu().value() };

    let res = execute(&repo, req);

    match res {
        Err(Error::NotFound) => {},
        _ => unreachable!(),
    }
}

#[test]
fn it_should_return_the_pokemon_otherwise() {
    let mut repo = InMemoryRepository::new();
    repo.insert(
        PokemonNumber::pikachu(),
        PokemonName::pikachu(),
        PokemonTypes::pikachu(),
    )
    .ok();
    let req = Request { number: PokemonNumber::pikachu().value() };

    let res = execute(&repo, req);

    match res {
        Ok(res) => {
            assert_eq!(res.number, PokemonNumber::pikachu().value());
            assert_eq!(res.name, PokemonName::pikachu().into_raw());
            assert_eq!(res.types, PokemonTypes::pikachu().into_raw())
        },
        _ => unreachable!(),
    }
}
