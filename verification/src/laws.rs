//! The bridge's cross-component guarantees, stated over the spec functions
//! its contracts use and proved once, for every input.

use vstd::prelude::*;
use crate::disk::MemDisk;
use crate::disk::not_found_text;
use crate::disk::read_result;
use crate::disk::remove_result;
use crate::disk::write_result;
use crate::fs::FsResponse;
use crate::fs::Settlement;
use crate::fs::read_response;
use crate::fs::settlement_of;

verus! {

/// For a file the disk holds, a read settles by resolving with content
/// identical to the content on disk — the string the worker classified is
/// the string the promise receives, unchanged.
pub proof fn lemma_read_resolves_with_content(d: MemDisk, p: Seq<char>, r: Result<String, String>)
    requires
        d.contains_path(p),
        read_result(d, p, r),
    ensures
        r matches Ok(content) && settlement_of(read_response(r)) == Settlement::Resolve(
            Some(content),
        ) && content@ == d.content_at(p),
{
}

/// For a path the disk does not hold, a read settles by rejecting with the
/// not-found message; it never resolves.
pub proof fn lemma_missing_read_rejects(d: MemDisk, p: Seq<char>, r: Result<String, String>)
    requires
        !d.contains_path(p),
        read_result(d, p, r),
    ensures
        settlement_of(read_response(r)) matches Settlement::Reject(message) && message@
            == not_found_text(),
        !(settlement_of(read_response(r)) is Resolve),
{
}

/// A write followed by a read of the same path resolves with exactly the
/// written content.
pub proof fn lemma_write_then_read_resolves(
    pre: MemDisk,
    post: MemDisk,
    p: Seq<char>,
    c: Seq<char>,
    r: Result<String, String>,
)
    requires
        write_result(pre, post, p, c),
        read_result(post, p, r),
    ensures
        r matches Ok(content) && content@ == c,
        settlement_of(read_response(r)) matches Settlement::Resolve(Some(content)) && content@
            == c,
{
}

/// A successful remove followed by a read of the same path rejects.
pub proof fn lemma_remove_then_read_rejects(
    pre: MemDisk,
    post: MemDisk,
    p: Seq<char>,
    removal: Result<(), String>,
    r: Result<String, String>,
)
    requires
        remove_result(pre, post, p, removal),
        removal is Ok,
        read_result(post, p, r),
    ensures
        r is Err,
        settlement_of(read_response(r)) is Reject,
{
}

/// Exactly one of resolve and reject fires per consumed response: every
/// settlement is a resolution or a rejection, never both and never neither.
pub proof fn lemma_settlement_exclusive(response: FsResponse)
    ensures
        (settlement_of(response) is Resolve) <==> !(settlement_of(response) is Reject),
{
}

/// A handle settles at most once: consuming the response stored for a token
/// removes it, so nothing is left for a second settlement of that token.
pub proof fn lemma_no_second_settlement(responses: Map<u64, FsResponse>, token: u64)
    ensures
        !responses.remove(token).contains_key(token),
{
}

/// Independently dispatched operations settle independently: consuming one
/// token's response leaves every other token's response in place, so N
/// dispatched operations all settle no matter how their completions
/// interleave.
pub proof fn lemma_settlement_leaves_others(
    responses: Map<u64, FsResponse>,
    token: u64,
    other: u64,
)
    requires
        other != token,
        responses.contains_key(other),
    ensures
        responses.remove(token).contains_key(other),
        responses.remove(token)[other] == responses[other],
{
}

/// What remains of the stored responses after the settlement handler has
/// consumed, one reactor wake at a time, the responses for `order`.
pub open spec fn after_settling(responses: Map<u64, FsResponse>, order: Seq<u64>) -> Map<
    u64,
    FsResponse,
>
    decreases order.len(),
{
    if order.len() == 0 {
        responses
    } else {
        after_settling(responses.remove(order[0]), order.drop_first())
    }
}

/// Settling consumes exactly the woken handles: a token's response remains
/// stored afterwards if and only if it was stored before and its handle was
/// not among those woken.
pub proof fn lemma_after_settling_domain(
    responses: Map<u64, FsResponse>,
    order: Seq<u64>,
    token: u64,
)
    ensures
        after_settling(responses, order).contains_key(token) <==> (responses.contains_key(token)
            && !order.contains(token)),
    decreases order.len(),
{
    if order.len() > 0 {
        lemma_after_settling_domain(responses.remove(order[0]), order.drop_first(), token);
        if order.contains(token) {
            let i = choose|i: int| 0 <= i < order.len() && order[i] == token;
            if i > 0 {
                assert(order.drop_first()[i - 1] == token);
            }
        }
        if order.drop_first().contains(token) {
            let i = choose|i: int|
                0 <= i < order.drop_first().len() && order.drop_first()[i] == token;
            assert(order[i + 1] == token);
        }
    }
}

/// Liveness of settlement for N concurrently dispatched operations: once
/// every operation's response has been stored, each wake — in whatever order
/// the wakes arrive — still finds the response for its own handle, so all N
/// settle; and each handle's response is gone immediately after its wake, so
/// none settles twice.
pub proof fn lemma_all_dispatched_settle(
    responses: Map<u64, FsResponse>,
    order: Seq<u64>,
    k: int,
)
    requires
        forall|j: int| 0 <= j < order.len() ==> responses.contains_key(#[trigger] order[j]),
        forall|i: int, j: int| 0 <= i < j < order.len() ==> order[i] != order[j],
        0 <= k < order.len(),
    ensures
        after_settling(responses, order.take(k)).contains_key(order[k]),
        !after_settling(responses, order.take(k + 1)).contains_key(order[k]),
{
    lemma_after_settling_domain(responses, order.take(k), order[k]);
    if order.take(k).contains(order[k]) {
        let i = choose|i: int| 0 <= i < order.take(k).len() && order.take(k)[i] == order[k];
        assert(order[i] == order[k]);
    }
    lemma_after_settling_domain(responses, order.take(k + 1), order[k]);
    assert(order.take(k + 1)[k] == order[k]);
}

} // verus!
