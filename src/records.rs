//! Sequences of independently decoded records (rows, lines).
use vstd::prelude::*;

verus! {

/// Every record of `results` decoded.
pub open spec fn all_decoded<D, E>(results: Seq<Result<D, E>>) -> bool {
    forall|i: int| 0 <= i < results.len() ==> (#[trigger] results[i]) is Ok
}

/// Record `k` is the first one of `results` that failed.
pub open spec fn first_failure<D, E>(results: Seq<Result<D, E>>, k: int) -> bool {
    &&& 0 <= k < results.len()
    &&& results[k] is Err
    &&& all_decoded(results.take(k))
}

/// The decoded values, in order.
pub open spec fn decoded_values<D, E>(results: Seq<Result<D, E>>) -> Seq<D> {
    results.map_values(|x: Result<D, E>| x->Ok_0)
}

/// `r` gathers `results`: all the decoded values in order when every record
/// decoded, else the error of the first record that failed.
pub open spec fn gathered<D, E>(results: Seq<Result<D, E>>, r: Result<Vec<D>, E>) -> bool {
    &&& (r is Ok <==> all_decoded(results))
    &&& (r is Ok ==> r->Ok_0@ == decoded_values(results))
    &&& (r is Err ==> exists|k: int| first_failure(results, k) && r->Err_0 == (#[trigger] results[k])->Err_0)
}

/// Gather the records of a source: all of them in order when every one
/// decoded, else the error of the first one that failed, and nothing else.
pub fn collect_records<D, E>(results: Vec<Result<D, E>>) -> (r: Result<Vec<D>, E>)
    ensures
        gathered(results@, r),
{
    let ghost all = results@;
    let mut out: Vec<D> = Vec::new();
    for x in it: results.into_iter()
        invariant
            it.seq() == all,
            out@ == decoded_values(all.take(it.index() as int)),
            all_decoded(all.take(it.index() as int)),
    {
        let ghost k = it.index() as int;
        match x {
            Ok(d) => {
                out.push(d);
                assert(all.take(k + 1) =~= all.take(k).push(all[k]));
                assert(decoded_values(all.take(k + 1)) =~= decoded_values(all.take(k)).push(d));
            },
            Err(e) => {
                assert(first_failure(all, k));
                return Err(e);
            },
        }
    }
    assert(all.take(all.len() as int) =~= all);
    Ok(out)
}

} // verus!
