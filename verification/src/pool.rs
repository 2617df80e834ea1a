//! Work division for the bounded worker pool.
//!
//! Independent jobs — one per chunk of work — run on up to N threads;
//! completion order is not promised, results are collected after the
//! join, and the first failing job's error becomes the overall error
//! without cancelling the other jobs.

use vstd::prelude::*;

use crate::error::Error;
use crate::uploader::spec_ceil_div;

verus! {

/// The items of all chunks, in chunk order.
pub open spec fn spec_concat_chunks<T>(chunks: Seq<Vec<T>>) -> Seq<T>
    decreases chunks.len(),
{
    if chunks.len() == 0 {
        Seq::empty()
    } else {
        spec_concat_chunks(chunks.drop_last()) + chunks.last()@
    }
}

/// Splits work items into dispatch-ready chunks: concatenating the
/// chunks in order gives back exactly the input, every chunk holds
/// between 1 and `chunk_size` items, and there are `ceil(N /
/// chunk_size)` chunks for `N` items.
#[verifier::loop_isolation(false)]
pub fn split_into_chunks<T>(items: Vec<T>, chunk_size: usize) -> (r: Vec<Vec<T>>)
    requires
        chunk_size >= 1,
    ensures
        spec_concat_chunks(r@) == items@,
        forall|j: int| 0 <= j < r@.len() ==> 1 <= (#[trigger] r@[j])@.len() <= chunk_size,
        r@.len() == spec_ceil_div(items@.len() as int, chunk_size as int),
{
    let ghost input = items@;
    let mut rest = items;
    let mut out: Vec<Vec<T>> = Vec::new();
    proof {
        assert(spec_concat_chunks(out@) =~= Seq::<T>::empty());
    }
    while rest.len() > 0
        invariant
            spec_concat_chunks(out@) + rest@ == input,
            forall|j: int| 0 <= j < out@.len() ==> 1 <= (#[trigger] out@[j])@.len() <= chunk_size,
            (rest@.len() > 0 ==> out@.len() * chunk_size + rest@.len() == input.len()),
            (rest@.len() == 0 ==> out@.len() == spec_ceil_div(
                input.len() as int,
                chunk_size as int,
            )),
        decreases rest@.len(),
    {
        let ghost rest0 = rest@;
        let ghost consumed = input.len() - rest0.len();
        let take_n = if chunk_size <= rest.len() {
            chunk_size
        } else {
            rest.len()
        };
        let mut chunk: Vec<T> = Vec::new();
        let mut moved: usize = 0;
        while moved < take_n
            invariant
                0 <= moved <= take_n,
                take_n <= rest0.len(),
                chunk@.len() == moved,
                rest@ =~= rest0.skip(moved as int),
                chunk@ + rest@ == rest0,
            decreases take_n - moved,
        {
            let ghost r1 = rest@;
            let item = rest.remove(0);
            proof {
                assert(item == r1[0]);
                assert(rest@ =~= rest0.skip(moved + 1));
            }
            chunk.push(item);
            moved = moved + 1;
            proof {
                assert(chunk@ + rest@ =~= rest0);
            }
        }
        let ghost prev_out = out@;
        out.push(chunk);
        proof {
            assert(out@.drop_last() =~= prev_out);
            assert(spec_concat_chunks(out@) == spec_concat_chunks(prev_out) + out@.last()@);
            assert(spec_concat_chunks(out@) + rest@ =~= input);
            if rest@.len() > 0 {
                assert(take_n == chunk_size);
                assert((prev_out.len() + 1) * chunk_size == prev_out.len() * chunk_size
                    + chunk_size) by (nonlinear_arith);
            } else {
                let b = chunk_size as int;
                let n = prev_out.len() as int;
                if take_n == chunk_size {
                    assert((n + 1) * b == n * b + b) by (nonlinear_arith);
                    assert(input.len() as int == (n + 1) * b);
                    vstd::arithmetic::div_mod::lemma_fundamental_div_mod_converse(
                        input.len() as int,
                        b,
                        n + 1,
                        0,
                    );
                } else {
                    assert(input.len() as int == n * b + take_n);
                    vstd::arithmetic::div_mod::lemma_fundamental_div_mod_converse(
                        input.len() as int,
                        b,
                        n,
                        take_n as int,
                    );
                }
            }
        }
    }
    out
}

/// Collects the outcomes of the pool's jobs once all have joined: the
/// overall result is success exactly when every job succeeded, and the
/// first failing job's error otherwise. Later failures are dropped, not
/// acted on — a failing job never cancels its siblings.
pub fn first_error(results: Vec<Result<(), Error>>) -> (r: Result<(), Error>)
    ensures
        r is Ok <==> (forall|i: int|
            0 <= i < results@.len() ==> (#[trigger] results@[i]) is Ok),
        (r matches Err(e) ==> exists|i: int|
            {
                &&& 0 <= i < results@.len()
                &&& #[trigger] results@[i] == Result::<(), Error>::Err(e)
                &&& forall|j: int| 0 <= j < i ==> (#[trigger] results@[j]) is Ok
            }),
{
    let len = results.len();
    let mut i: usize = 0;
    while i < len
        invariant
            0 <= i <= len,
            len == results@.len(),
            forall|j: int| 0 <= j < i ==> (#[trigger] results@[j]) is Ok,
        decreases len - i,
    {
        match &results[i] {
            Ok(_) => {
                i = i + 1;
            },
            Err(e) => {
                let err = e.clone();
                proof {
                    assert(results@[i as int] == Result::<(), Error>::Err(err));
                }
                return Err(err);
            },
        }
    }
    Ok(())
}

} // verus!
