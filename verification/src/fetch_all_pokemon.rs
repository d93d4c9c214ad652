//! Fetching every record: no input to validate; the repository hands back
//! all stored records in insertion order, mirrored as raw values.

use vstd::prelude::*;

use crate::entities::raw_of_types;
use crate::repository::{views_of, FetchAllError, Repository};

verus! {

/// How fetching everything can fail: only by an opaque storage failure.
#[derive(Debug)]
pub enum Error {
    Unknown,
}

/// The raw shape of one stored record.
#[derive(Debug)]
pub struct Response {
    pub number: u16,
    pub name: String,
    pub types: Vec<String>,
}

/// Returns every stored record as raw values, in insertion order, or
/// `Unknown` on a storage fault.
pub fn execute<R: Repository>(repo: &R) -> (r: Result<Vec<Response>, Error>)
    requires
        repo.inv(),
    ensures
        repo.faulty() ==> (r matches Err(e) && e is Unknown),
        !repo.faulty() ==> (r matches Ok(v) && {
            &&& v@.len() == repo.records().len()
            &&& forall|i: int|
                0 <= i < v@.len() ==> {
                    let pv = repo.records()[i];
                    &&& (#[trigger] v@[i]).number == pv.number
                    &&& v@[i].name@ == pv.name
                    &&& v@[i].types.deep_view() == raw_of_types(pv.types)
                }
        }),
{
    let all = match repo.fetch_all() {
        Ok(all) => all,
        Err(FetchAllError::Unknown) => {
            return Err(Error::Unknown);
        },
    };
    proof {
        assert forall|j: int| 0 <= j < all@.len() implies (#[trigger] all@[j])@
            == repo.records()[j] by {
            assert(views_of(all@)[j] == all@[j]@);
        }
    }
    let mut out: Vec<Response> = Vec::new();
    let mut i: usize = 0;
    while i < all.len()
        invariant
            0 <= i <= all.len(),
            all@.len() == repo.records().len(),
            forall|j: int| 0 <= j < all@.len() ==> (#[trigger] all@[j])@ == repo.records()[j],
            out@.len() == i,
            forall|j: int|
                0 <= j < i ==> {
                    let pv = repo.records()[j];
                    &&& (#[trigger] out@[j]).number == pv.number
                    &&& out@[j].name@ == pv.name
                    &&& out@[j].types.deep_view() == raw_of_types(pv.types)
                },
        decreases all.len() - i,
    {
        let p = &all[i];
        let resp = Response {
            number: p.number.value(),
            name: p.name.duplicate().into_raw(),
            types: p.types.duplicate().into_raw(),
        };
        out.push(resp);
        i = i + 1;
    }
    Ok(out)
}

} // verus!
