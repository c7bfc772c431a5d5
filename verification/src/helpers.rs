//! Free helpers around the conversion capability, and the bridge to the
//! client library's error type for callers that need one.
use vstd::prelude::*;

verus! {

#[verifier::external_type_specification]
#[verifier::external_body]
pub struct ExRedisError(redis::RedisError);

/// Relies on redis's RedisError: builds the client library's
/// unexpected-return-type error, with the fixed summary and the given detail
/// text, for callers that surface this layer's failures through it.
#[verifier::external_body]
pub fn create_rediserror(desc: &str) -> redis::RedisError {
    (redis::ErrorKind::UnexpectedReturnType, "Parsing Error", desc.to_owned()).into()
}


/// The first cell of each row: how the catalog queries (labels, property
/// keys, relationship types) flatten their single-column replies.
pub fn first_column(rows: Vec<Vec<String>>) -> (r: Vec<String>)
    requires
        forall|i: int| 0 <= i < rows@.len() ==> (#[trigger] rows@[i])@.len() >= 1,
    ensures
        r@.len() == rows@.len(),
        forall|i: int| 0 <= i < rows@.len() ==> #[trigger] r@[i] == rows@[i]@[0],
{
    let mut out: Vec<String> = Vec::new();
    let n = rows.len();
    let ghost rows0 = rows@;
    let mut rest = rows;
    let mut taken: usize = 0;
    proof {
        assert(rest@ =~= rows0.skip(0));
    }
    while taken < n
        invariant
            n == rows0.len(),
            taken <= n,
            rest@ == rows0.skip(taken as int),
            out@.len() == taken,
            forall|i: int| 0 <= i < rows0.len() ==> (#[trigger] rows0[i])@.len() >= 1,
            forall|i: int| 0 <= i < taken ==> #[trigger] out@[i] == rows0[i]@[0],
        decreases n - taken,
    {
        let mut row = rest.remove(0);
        proof {
            assert(rows0.skip(taken as int)[0] == rows0[taken as int]);
        }
        let cell = row.remove(0);
        out.push(cell);
        taken += 1;
        proof {
            assert(rest@ =~= rows0.skip(taken as int));
        }
    }
    out
}
} // verus!
