use vstd::prelude::*;

use crate::twitch::secret::Secret;

verus! {

/// Where the next page of a paginated response starts.
#[derive(Clone, Default)]
pub struct Pagination {
    pub cursor: Option<Secret>,
}

/// The only element of a response's data, if any.
pub fn take_single<T>(data: Vec<T>) -> (r: Option<T>)
    requires
        data@.len() <= 1,
    ensures
        r == if data@.len() == 0 {
            None
        } else {
            Some(data@[0])
        },
{
    let mut data = data;
    data.pop()
}

} // verus!
