//! Deleting a record: validate the raw number and remove the record with
//! that number through the repository.

use vstd::prelude::*;

use crate::entities::{valid_number, PokemonNumber};
use crate::repository::{contains_number, index_of_number, DeleteError, Repository};

verus! {

/// The raw input of a delete request: the number to remove.
pub struct Request {
    pub number: u16,
}

/// How deleting can fail: malformed input, no such record, or an opaque
/// storage failure.
#[derive(Debug)]
pub enum Error {
    Unknown,
    BadRequest,
    NotFound,
}

/// Validates the number and removes the stored record with that number;
/// fails with `BadRequest` on an out-of-range number, `NotFound` when no
/// record has it, and `Unknown` on a storage fault. On failure the stored
/// contents are unchanged; on success exactly that record is gone and the
/// order of the rest is kept.
pub fn execute<R: Repository>(repo: &mut R, req: Request) -> (r: Result<(), Error>)
    requires
        old(repo).inv(),
    ensures
        final(repo).inv(),
        final(repo).faulty() == old(repo).faulty(),
        !valid_number(req.number) ==> {
            &&& r matches Err(e) && e is BadRequest
            &&& final(repo).records() == old(repo).records()
        },
        valid_number(req.number) && old(repo).faulty() ==> {
            &&& r matches Err(e) && e is Unknown
            &&& final(repo).records() == old(repo).records()
        },
        valid_number(req.number) && !old(repo).faulty() && !contains_number(
            old(repo).records(),
            req.number,
        ) ==> {
            &&& r matches Err(e) && e is NotFound
            &&& final(repo).records() == old(repo).records()
        },
        valid_number(req.number) && !old(repo).faulty() && contains_number(
            old(repo).records(),
            req.number,
        ) ==> {
            &&& r is Ok
            &&& final(repo).records() == old(repo).records().remove(
                index_of_number(old(repo).records(), req.number),
            )
            &&& !contains_number(final(repo).records(), req.number)
        },
{
    let valid_num = match PokemonNumber::try_from(req.number) {
        Ok(n) => n,
        Err(_) => {
            return Err(Error::BadRequest);
        },
    };
    match repo.delete(valid_num) {
        Ok(_) => Ok(()),
        Err(DeleteError::NotFound) => Err(Error::NotFound),
        Err(DeleteError::Unknown) => Err(Error::Unknown),
    }
}

} // verus!
