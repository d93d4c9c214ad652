//! Creating a record: validate the three raw inputs, insert through the
//! repository, and translate the outcome. A single invalid field anywhere
//! yields `BadRequest`; repository failures pass through unchanged in kind.

use vstd::prelude::*;

use crate::entities::{
    lemma_types_round_trip, types_of_raw, valid_name, valid_number, valid_raw_types, Pokemon,
    PokemonName, PokemonNumber, PokemonTypes, PokemonView,
};
use crate::repository::{contains_number, InsertError, Repository};

verus! {

/// The raw inputs of a create request.
pub struct Request {
    pub number: u16,
    pub name: String,
    pub types: Vec<String>,
}

/// The raw shape of the record that was created.
pub struct Response {
    pub number: u16,
    pub name: String,
    pub types: Vec<String>,
}

/// How creating can fail: malformed input, an identity collision, or an
/// opaque storage failure.
#[derive(Debug)]
pub enum Error {
    BadRequest,
    Conflict,
    Unknown,
}

/// Whether every raw field of a create request validates.
pub open spec fn valid_request(number: u16, name: Seq<char>, types: Seq<Seq<char>>) -> bool {
    valid_number(number) && valid_name(name) && valid_raw_types(types)
}

/// Validates the request, inserts the record, and mirrors it back as raw
/// values; fails with `BadRequest` on any invalid field, `Conflict` when the
/// number is already stored, and `Unknown` on a storage fault.
pub fn execute<R: Repository>(repo: &mut R, req: Request) -> (r: Result<Response, Error>)
    requires
        old(repo).inv(),
    ensures
        final(repo).inv(),
        final(repo).faulty() == old(repo).faulty(),
        !valid_request(req.number, req.name@, req.types.deep_view()) ==> {
            &&& r matches Err(e) && e is BadRequest
            &&& final(repo).records() == old(repo).records()
        },
        valid_request(req.number, req.name@, req.types.deep_view()) && old(repo).faulty() ==> {
            &&& r matches Err(e) && e is Unknown
            &&& final(repo).records() == old(repo).records()
        },
        valid_request(req.number, req.name@, req.types.deep_view()) && !old(repo).faulty()
            && contains_number(old(repo).records(), req.number) ==> {
            &&& r matches Err(e) && e is Conflict
            &&& final(repo).records() == old(repo).records()
        },
        valid_request(req.number, req.name@, req.types.deep_view()) && !old(repo).faulty()
            && !contains_number(old(repo).records(), req.number) ==> {
            &&& r matches Ok(resp)
                && resp.number == req.number
                && resp.name@ == req.name@
                && resp.types.deep_view() == req.types.deep_view()
            &&& final(repo).records() == old(repo).records().push(
                PokemonView {
                    number: req.number,
                    name: req.name@,
                    types: types_of_raw(req.types.deep_view()),
                },
            )
        },
{
    let Request { number, name, types } = req;
    let poke_num = PokemonNumber::try_from(number);
    let poke_name = PokemonName::try_from(name);
    let poke_types = PokemonTypes::try_from(types);

    match (poke_num, poke_name, poke_types) {
        (Ok(vnumber), Ok(vname), Ok(vtypes)) => match repo.insert(vnumber, vname, vtypes) {
            Ok(p) => {
                proof {
                    lemma_types_round_trip(req.types.deep_view());
                    assert(p@ =~= (PokemonView {
                        number: req.number,
                        name: req.name@,
                        types: types_of_raw(req.types.deep_view()),
                    }));
                }
                let Pokemon { number, name, types } = p;
                Ok(
                    Response {
                        number: number.value(),
                        name: name.into_raw(),
                        types: types.into_raw(),
                    },
                )
            },
            Err(InsertError::Conflict) => Err(Error::Conflict),
            Err(InsertError::Unknown) => Err(Error::Unknown),
        },
        _ => Err(Error::BadRequest),
    }
}

} // verus!
