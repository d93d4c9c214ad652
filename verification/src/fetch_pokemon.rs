//! Fetching one record: validate the raw number, look it up through the
//! repository, and mirror the stored record back as raw values.

use vstd::prelude::*;

use crate::entities::{raw_of_types, valid_number, Pokemon, PokemonNumber};
use crate::repository::{contains_number, lookup_number, FetchOneError, Repository};

verus! {

/// The raw input of a fetch request: the number to look up.
pub struct Request {
    pub number: u16,
}

/// How fetching can fail: malformed input, no such record, or an opaque
/// storage failure.
#[derive(Debug)]
pub enum Error {
    Unknown,
    BadRequest,
    NotFound,
}

/// The raw shape of the record that was found.
#[derive(Debug)]
pub struct Response {
    pub number: u16,
    pub name: String,
    pub types: Vec<String>,
}

/// Validates the number and returns the stored record with that number as
/// raw values; fails with `BadRequest` on an out-of-range number, `NotFound`
/// when no record has it, and `Unknown` on a storage fault.
pub fn execute<R: Repository>(repo: &R, req: Request) -> (r: Result<Response, Error>)
    requires
        repo.inv(),
    ensures
        !valid_number(req.number) ==> (r matches Err(e) && e is BadRequest),
        valid_number(req.number) && repo.faulty() ==> (r matches Err(e) && e is Unknown),
        valid_number(req.number) && !repo.faulty() && !contains_number(
            repo.records(),
            req.number,
        ) ==> (r matches Err(e) && e is NotFound),
        valid_number(req.number) && !repo.faulty() && contains_number(
            repo.records(),
            req.number,
        ) ==> (r matches Ok(resp) && {
            let pv = lookup_number(repo.records(), req.number);
            &&& resp.number == pv.number
            &&& resp.name@ == pv.name
            &&& resp.types.deep_view() == raw_of_types(pv.types)
        }),
{
    let valid_num = match PokemonNumber::try_from(req.number) {
        Ok(n) => n,
        Err(_) => {
            return Err(Error::BadRequest);
        },
    };
    match repo.fetch_one(valid_num) {
        Ok(p) => {
            let Pokemon { number, name, types } = p;
            Ok(
                Response {
                    number: number.value(),
                    name: name.into_raw(),
                    types: types.into_raw(),
                },
            )
        },
        Err(FetchOneError::NotFound) => Err(Error::NotFound),
        Err(FetchOneError::Unknown) => Err(Error::Unknown),
    }
}

} // verus!
