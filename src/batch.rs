use vstd::prelude::*;

use crate::error::Error;
use crate::gate::Race;
use crate::response::Response;

verus! {

/// The values of the successful items, in submission order.
pub open spec fn successes<T>(rs: Seq<Result<T, Error>>) -> Seq<T>
    decreases rs.len(),
{
    if rs.len() == 0 {
        Seq::empty()
    } else {
        let rest = successes(rs.drop_last());
        match rs.last() {
            Ok(v) => rest.push(v),
            Err(_) => rest,
        }
    }
}

/// The number of successful items.
pub open spec fn ok_count<T>(rs: Seq<Result<T, Error>>) -> nat
    decreases rs.len(),
{
    if rs.len() == 0 {
        0
    } else {
        ok_count(rs.drop_last()) + if rs.last() is Ok {
            1nat
        } else {
            0nat
        }
    }
}

/// What a batch hands back: the successes in order, failures dropped; or a
/// cancellation error where the interrupt won, with no partial list.
pub open spec fn batch_outcome<T>(race: Race<Seq<Result<T, Error>>>) -> Result<Seq<T>, Error> {
    match race {
        Race::Finished(rs) => Ok(successes(rs)),
        Race::Interrupted => Err(Error::Cancelled),
    }
}

/// What a batch of downloads reports: success once every item has ended,
/// whatever each one's outcome; a cancellation error where the interrupt won.
pub open spec fn download_batch_outcome(race: Race<Seq<Result<(), Error>>>) -> Result<(), Error> {
    match race {
        Race::Finished(_) => Ok(()),
        Race::Interrupted => Err(Error::Cancelled),
    }
}

/// The values of the successful items, in submission order; failed items
/// are dropped.
pub fn collect_successes<T>(results: Vec<Result<T, Error>>) -> (r: Vec<T>)
    ensures
        r@ == successes(results@),
{
    let ghost all = results@;
    let n = results.len();
    let mut out: Vec<T> = Vec::new();
    let mut rest = results;
    let mut taken: usize = 0;
    while rest.len() > 0
        invariant
            taken + rest@.len() == all.len(),
            all.len() == n,
            rest@ == all.subrange(taken as int, all.len() as int),
            out@ == successes(all.subrange(0, taken as int)),
        decreases rest@.len(),
    {
        let item = rest.remove(0);
        let ghost sub = all.subrange(0, taken as int + 1);
        assert(sub.drop_last() =~= all.subrange(0, taken as int));
        assert(sub.last() == all[taken as int]);
        match item {
            Ok(v) => out.push(v),
            Err(_) => {},
        }
        taken = taken + 1;
    }
    assert(all.subrange(0, taken as int) =~= all);
    out
}

/// Ends a batch of requests: the successes in order, or a cancellation error
/// where the interrupt fired first and the pending items were abandoned.
pub fn finish_batch<T>(race: Race<Vec<Result<T, Error>>>) -> (r: Result<Vec<T>, Error>)
    ensures
        match race {
            Race::Finished(rs) => r is Ok && r->Ok_0@ == successes(rs@),
            Race::Interrupted => r == Err::<Vec<T>, Error>(Error::Cancelled),
        },
{
    match race {
        Race::Finished(rs) => Ok(collect_successes(rs)),
        Race::Interrupted => Err(Error::Cancelled),
    }
}

/// Ends a batch of downloads. Failed items were only logged: the batch
/// succeeds once the fan-out ends, and fails only where the interrupt won.
pub fn finish_download_batch(race: Race<Vec<Result<(), Error>>>) -> (r: Result<(), Error>)
    ensures
        r == download_batch_outcome(
            match race {
                Race::Finished(rs) => Race::Finished(rs@),
                Race::Interrupted => Race::Interrupted,
            },
        ),
{
    match race {
        Race::Finished(_) => Ok(()),
        Race::Interrupted => Err(Error::Cancelled),
    }
}

/// What happens to one item of a batch once its request has ended.
pub enum ItemStep {
    /// The request failed: the item is dropped.
    Drop(Error),
    /// No callback: the response itself is the item's result.
    Deliver(Response),
    /// The response goes to the host's callback, whose outcome decides.
    Callback(Response),
}

/// Decides the next step of a batch item after its request.
pub fn after_request(r: Result<Response, Error>, has_callback: bool) -> (s: ItemStep)
    ensures
        match r {
            Err(e) => s == ItemStep::Drop(e),
            Ok(resp) => if has_callback {
                s == ItemStep::Callback(resp)
            } else {
                s == ItemStep::Deliver(resp)
            },
        },
{
    match r {
        Err(e) => ItemStep::Drop(e),
        Ok(resp) => if has_callback {
            ItemStep::Callback(resp)
        } else {
            ItemStep::Deliver(resp)
        },
    }
}

/// The item's result once the callback has run: its output, or, where it
/// raised, a callback error that drops this item alone.
pub fn after_callback<T>(out: Result<T, String>) -> (r: Result<T, Error>)
    ensures
        match out {
            Ok(v) => r == Ok::<T, Error>(v),
            Err(m) => r == Err::<T, Error>(Error::Callback(m)),
        },
{
    match out {
        Ok(v) => Ok(v),
        Err(m) => Err(Error::Callback(m)),
    }
}

/// A batch hands back exactly its successful items, in the order they were
/// submitted, and surfaces none of the failures: as many values as items
/// that succeeded, each the value of the matching success.
pub proof fn lemma_batch_keeps_successes<T>(rs: Seq<Result<T, Error>>)
    ensures
        batch_outcome(Race::Finished(rs)) == Ok::<Seq<T>, Error>(
            rs.filter(|x: Result<T, Error>| x is Ok).map_values(|x: Result<T, Error>| x->Ok_0),
        ),
        successes(rs).len() == ok_count(rs),
    decreases rs.len(),
{
    if rs.len() > 0 {
        lemma_batch_keeps_successes(rs.drop_last());
        let f = |x: Result<T, Error>| x is Ok;
        let g = |x: Result<T, Error>| x->Ok_0;
        assert(rs.filter(f) == if f(rs.last()) {
            rs.drop_last().filter(f).push(rs.last())
        } else {
            rs.drop_last().filter(f)
        }) by {
            reveal(Seq::filter);
        }
        if rs.last() is Ok {
            assert(rs.filter(f).map_values(g) =~= rs.drop_last().filter(f).map_values(g).push(
                rs.last()->Ok_0,
            ));
        }
    } else {
        assert(rs.filter(|x: Result<T, Error>| x is Ok) =~= Seq::<Result<T, Error>>::empty()) by {
            reveal(Seq::filter);
        }
        assert(rs.filter(|x: Result<T, Error>| x is Ok).map_values(|x: Result<T, Error>| x->Ok_0)
            =~= Seq::<T>::empty());
    }
}

/// A failure of one item, a request or its callback, drops that item and
/// leaves the results of all the others as they were.
pub proof fn lemma_failure_drops_one<T>(rs: Seq<Result<T, Error>>, j: int, e: Error)
    requires
        0 <= j < rs.len(),
    ensures
        successes(rs.update(j, Err(e))) == successes(rs.remove(j)),
    decreases rs.len(),
{
    let u = rs.update(j, Err(e));
    if j == rs.len() - 1 {
        assert(u.drop_last() =~= rs.remove(j));
    } else {
        lemma_failure_drops_one(rs.drop_last(), j, e);
        assert(u.drop_last() =~= rs.drop_last().update(j, Err(e)));
        assert(rs.remove(j).drop_last() =~= rs.drop_last().remove(j));
        assert(rs.remove(j).last() == rs.last());
    }
}

/// One item of a batch with a callback: the request's failure, else what
/// the callback gave, its raising read as a callback error.
pub open spec fn callback_item<T>(req: Result<Response, Error>, out: Result<T, String>) -> Result<T, Error> {
    match req {
        Err(e) => Err(e),
        Ok(_) => match out {
            Ok(v) => Ok(v),
            Err(m) => Err(Error::Callback(m)),
        },
    }
}

/// The items of a batch with a callback, in submission order.
pub open spec fn callback_items<T>(reqs: Seq<Result<Response, Error>>, outs: Seq<Result<T, String>>) -> Seq<
    Result<T, Error>,
> {
    Seq::new(reqs.len(), |i: int| callback_item(reqs[i], outs[i]))
}

/// A batch with a callback hands back the callback's output for each item
/// whose request and callback both succeeded, and nothing else; where the
/// callback raises for one item, that item alone is missing and the batch
/// itself does not fail.
pub proof fn lemma_callback_batch<T>(reqs: Seq<Result<Response, Error>>, outs: Seq<Result<T, String>>)
    requires
        reqs.len() == outs.len(),
    ensures
        batch_outcome(Race::Finished(callback_items(reqs, outs))) == Ok::<Seq<T>, Error>(
            callback_items(reqs, outs).filter(|x: Result<T, Error>| x is Ok).map_values(
                |x: Result<T, Error>| x->Ok_0,
            ),
        ),
        forall|i: int|
            0 <= i < reqs.len() ==> ((#[trigger] callback_items(reqs, outs)[i] is Ok) <==> (reqs[i] is Ok
                && outs[i] is Ok)),
        forall|i: int|
            0 <= i < reqs.len() && (#[trigger] callback_items(reqs, outs)[i]) is Ok ==> callback_items(
                reqs,
                outs,
            )[i]->Ok_0 == outs[i]->Ok_0,
        forall|j: int|
            0 <= j < reqs.len() && reqs[j] is Ok && (#[trigger] outs[j]) is Err ==> successes(
                callback_items(reqs, outs),
            ) == successes(callback_items(reqs, outs).remove(j)),
{
    let items = callback_items(reqs, outs);
    lemma_batch_keeps_successes(items);
    assert forall|j: int|
        0 <= j < reqs.len() && reqs[j] is Ok && (#[trigger] outs[j]) is Err implies successes(items)
        == successes(items.remove(j)) by {
        let e = items[j]->Err_0;
        lemma_failure_drops_one(items, j, e);
        assert(items.update(j, Err(e)) =~= items);
    }
}

} // verus!
