//! Pointer barriers and their check.
use vstd::prelude::*;
use zbus::zvariant::OwnedValue;
use crate::value::{
    dict_four, dict_runs_out, dict_u32, held_fields, held_u32, leading_fields_are_taken,
    short_structures_run_out, OptionDict,
};

verus! {

/// A barrier: an axis-aligned line segment on which the pointer starts a capture.
#[derive(Debug, Clone, Copy, PartialEq, Eq, Structural)]
pub struct Barrier {
    pub id: u32,
    pub x1: i32,
    pub y1: i32,
    pub x2: i32,
    pub y2: i32,
}

impl Barrier {
    /// The end points, first `(x1, y1)`, then `(x2, y2)`.
    pub open spec fn position(self) -> (i32, i32, i32, i32) {
        (self.x1, self.y1, self.x2, self.y2)
    }

    /// A barrier that a session may hold: it has an identifier and it is a segment.
    pub open spec fn valid(self) -> bool {
        self.id != 0 && is_segment(self.position())
    }
}

/// A barrier as a frontend asked for it. The identifier 0 stands for none.
#[derive(Debug, Clone, Copy, PartialEq, Eq)]
pub struct BarrierRequest {
    pub id: u32,
    pub position: Option<(i32, i32, i32, i32)>,
}

/// The end points share a coordinate.
pub open spec fn axis_aligned(position: (i32, i32, i32, i32)) -> bool {
    position.0 == position.2 || position.1 == position.3
}

/// The end points coincide.
pub open spec fn is_point(position: (i32, i32, i32, i32)) -> bool {
    position.0 == position.2 && position.1 == position.3
}

/// An axis-aligned segment of positive length.
pub open spec fn is_segment(position: (i32, i32, i32, i32)) -> bool {
    axis_aligned(position) && !is_point(position)
}

impl BarrierRequest {
    /// A request without an identifier is dropped without an answer.
    pub open spec fn identified(self) -> bool {
        self.id != 0
    }

    /// A request that becomes a barrier.
    pub open spec fn acceptable(self) -> bool {
        self.identified() && (self.position matches Some(position) && is_segment(position))
    }

    /// A request that is reported as failed.
    pub open spec fn failing(self) -> bool {
        self.identified() && !self.acceptable()
    }

    /// The barrier that an acceptable request asks for.
    pub open spec fn barrier(self) -> Barrier {
        let position = self.position->0;
        Barrier { id: self.id, x1: position.0, y1: position.1, x2: position.2, y2: position.3 }
    }
}

/// The barriers that come of `requests`, in their order.
pub open spec fn accepted(requests: Seq<BarrierRequest>) -> Seq<Barrier> {
    requests.filter(|request: BarrierRequest| request.acceptable()).map_values(
        |request: BarrierRequest| request.barrier(),
    )
}

/// The identifiers of the failing ones among `requests`, in their order.
pub open spec fn failed(requests: Seq<BarrierRequest>) -> Seq<u32> {
    requests.filter(|request: BarrierRequest| request.failing()).map_values(
        |request: BarrierRequest| request.id,
    )
}

/// What one more request adds to the barriers and to the failures.
proof fn lemma_one_more_request(requests: Seq<BarrierRequest>, request: BarrierRequest)
    ensures
        accepted(requests.push(request)) == (if request.acceptable() {
            accepted(requests).push(request.barrier())
        } else {
            accepted(requests)
        }),
        failed(requests.push(request)) == (if request.failing() {
            failed(requests).push(request.id)
        } else {
            failed(requests)
        }),
{
    reveal(Seq::filter);
    assert(requests.push(request).drop_last() =~= requests);
    assert(accepted(requests.push(request)) =~= (if request.acceptable() {
        accepted(requests).push(request.barrier())
    } else {
        accepted(requests)
    }));
    assert(failed(requests.push(request)) =~= (if request.failing() {
        failed(requests).push(request.id)
    } else {
        failed(requests)
    }));
}

/// Parts the requests into barriers and failed identifiers; those without an identifier
/// are in neither.
pub fn classify(requests: &Vec<BarrierRequest>) -> (res: (Vec<Barrier>, Vec<u32>))
    ensures
        res.0@ == accepted(requests@),
        res.1@ == failed(requests@),
{
    let mut valid: Vec<Barrier> = Vec::new();
    let mut rejected: Vec<u32> = Vec::new();
    proof {
        reveal(Seq::filter);
        assert(accepted(requests@.take(0)) =~= Seq::empty());
        assert(failed(requests@.take(0)) =~= Seq::empty());
    }
    for i in 0..requests.len()
        invariant
            valid@ == accepted(requests@.take(i as int)),
            rejected@ == failed(requests@.take(i as int)),
    {
        let request = requests[i];
        proof {
            lemma_one_more_request(requests@.take(i as int), request);
            assert(requests@.take(i + 1) =~= requests@.take(i as int).push(request));
        }
        if request.id != 0 {
            match request.position {
                Some((x1, y1, x2, y2)) => {
                    if x1 != x2 && y1 != y2 {
                        rejected.push(request.id);
                    } else if x1 == x2 && y1 == y2 {
                        rejected.push(request.id);
                    } else {
                        valid.push(Barrier { id: request.id, x1, y1, x2, y2 });
                    }
                },
                None => {
                    rejected.push(request.id);
                },
            }
        }
    }
    proof {
        assert(requests@.take(requests@.len() as int) =~= requests@);
    }
    (valid, rejected)
}

/// The barriers as they are sent to the compositor: each identifier with its end points.
pub open spec fn forwarded(barriers: Seq<Barrier>) -> Seq<(u32, (i32, i32, i32, i32))> {
    barriers.map_values(|barrier: Barrier| (barrier.id, barrier.position()))
}

/// Lists the barriers as they are sent to the compositor.
pub fn forward(barriers: &Vec<Barrier>) -> (res: Vec<(u32, (i32, i32, i32, i32))>)
    ensures
        res@ == forwarded(barriers@),
        res@.len() == barriers@.len(),
        forall|i: int|
            0 <= i < barriers@.len() ==> (#[trigger] res@[i]) == (
                barriers@[i].id,
                (barriers@[i].x1, barriers@[i].y1, barriers@[i].x2, barriers@[i].y2),
            ),
{
    let mut res: Vec<(u32, (i32, i32, i32, i32))> = Vec::new();
    for i in 0..barriers.len()
        invariant
            res@ == forwarded(barriers@).take(i as int),
    {
        let barrier = barriers[i];
        res.push((barrier.id, (barrier.x1, barrier.y1, barrier.x2, barrier.y2)));
        assert(forwarded(barriers@).take(i + 1) =~= forwarded(barriers@).take(i as int).push(
            (barrier.id, barrier.position()),
        ));
    }
    assert(forwarded(barriers@).take(barriers@.len() as int) =~= forwarded(barriers@));
    res
}

/// The request that a dictionary states: an integer `barrier_id`, 0 where it is missing or
/// of another type, and a structure `position` that begins with four integers, where there
/// is one.
pub open spec fn request_of(dict: Map<Seq<char>, OwnedValue>) -> BarrierRequest {
    BarrierRequest {
        id: match dict_u32(dict, "barrier_id"@) {
            Some(id) => id,
            None => 0,
        },
        position: dict_four(dict, "position"@),
    }
}

/// The requests that dictionaries state, in their order.
pub open spec fn requests_of(dicts: Seq<OptionDict>) -> Seq<BarrierRequest> {
    dicts.map_values(|dict: OptionDict| request_of(dict@))
}

/// No `position` is a structure that runs out before four integers were taken off it.
pub open spec fn readable(dicts: Seq<OptionDict>) -> bool {
    forall|i: int| 0 <= i < dicts.len() ==> !dict_runs_out((#[trigger] dicts[i])@, "position"@)
}

/// Tests whether every `position` can be read.
pub fn check_requests(dicts: &Vec<OptionDict>) -> (res: bool)
    ensures
        res == readable(dicts@),
{
    for i in 0..dicts.len()
        invariant
            forall|j: int| 0 <= j < i ==> !dict_runs_out((#[trigger] dicts@[j])@, "position"@),
    {
        if dicts[i].runs_out_at("position") {
            assert(dict_runs_out(dicts@[i as int]@, "position"@));
            return false;
        }
    }
    true
}

/// Reads the requests that dictionaries state.
pub fn read_requests(dicts: &Vec<OptionDict>) -> (res: Vec<BarrierRequest>)
    requires
        readable(dicts@),
    ensures
        res@ == requests_of(dicts@),
{
    let mut res: Vec<BarrierRequest> = Vec::new();
    for i in 0..dicts.len()
        invariant
            readable(dicts@),
            res@ == requests_of(dicts@).take(i as int),
    {
        let id = match dicts[i].u32_at("barrier_id") {
            Some(id) => id,
            None => 0,
        };
        assert(!dict_runs_out(dicts@[i as int]@, "position"@));
        let position = dicts[i].four_at("position");
        res.push(BarrierRequest { id, position });
        assert(requests_of(dicts@).take(i + 1) =~= requests_of(dicts@).take(i as int).push(
            request_of(dicts@[i as int]@),
        ));
    }
    assert(requests_of(dicts@).take(dicts@.len() as int) =~= requests_of(dicts@));
    res
}

/// Every barrier that comes of requests is an axis-aligned segment of positive length
/// with an identifier.
pub proof fn accepted_barriers_are_valid(requests: Seq<BarrierRequest>)
    ensures
        forall|i: int| 0 <= i < accepted(requests).len() ==> (#[trigger] accepted(requests)[i]).valid(),
    decreases requests.len(),
{
    if requests.len() == 0 {
        reveal(Seq::filter);
    } else {
        accepted_barriers_are_valid(requests.drop_last());
        lemma_one_more_request(requests.drop_last(), requests.last());
        assert(requests.drop_last().push(requests.last()) =~= requests);
    }
}

/// Each request with an identifier is answered exactly once: as a barrier or as a
/// failure. One without an identifier leaves no trace.
pub proof fn identified_requests_are_answered_once(requests: Seq<BarrierRequest>)
    ensures
        accepted(requests).len() + failed(requests).len() == requests.filter(
            |request: BarrierRequest| request.identified(),
        ).len(),
    decreases requests.len(),
{
    reveal(Seq::filter);
    if requests.len() > 0 {
        identified_requests_are_answered_once(requests.drop_last());
        lemma_one_more_request(requests.drop_last(), requests.last());
        assert(requests.drop_last().push(requests.last()) =~= requests);
    }
}

/// The barriers are those that acceptable requests ask for, and the failed identifiers are
/// those of failing requests; no other occurs, and none is left out.
pub proof fn answers_stand_for_requests(
    requests: Seq<BarrierRequest>,
    barrier: Barrier,
    identifier: u32,
)
    ensures
        accepted(requests).contains(barrier) <==> exists|i: int|
            0 <= i < requests.len() && (#[trigger] requests[i]).acceptable()
                && requests[i].barrier() == barrier,
        failed(requests).contains(identifier) <==> exists|i: int|
            0 <= i < requests.len() && (#[trigger] requests[i]).failing() && requests[i].id
                == identifier,
    decreases requests.len(),
{
    if requests.len() == 0 {
        reveal(Seq::filter);
    } else {
        let before = requests.drop_last();
        let last = requests.last();
        answers_stand_for_requests(before, barrier, identifier);
        lemma_one_more_request(before, last);
        assert(before.push(last) =~= requests);
        assert forall|i: int| 0 <= i < before.len() implies #[trigger] before[i] == requests[i] by {}
        assert(requests[requests.len() - 1] == last);
        lemma_contains_after_push(accepted(before), last.barrier(), barrier);
        lemma_contains_after_push(failed(before), last.id, identifier);
    }
}

/// The barriers keep the order of the requests and take over their numbers: each stands for
/// a request further on than the one before it, with that request's identifier and end
/// points, and every request with an identifier that asks for an axis-aligned segment of
/// positive length is among them. The indices of these requests are returned.
pub proof fn barriers_keep_the_order_of_requests(requests: Seq<BarrierRequest>) -> (origin: Seq<int>)
    ensures
        origin.len() == accepted(requests).len(),
        forall|k: int|
            0 <= k < origin.len() ==> {
                let barrier = accepted(requests)[k];
                &&& 0 <= #[trigger] origin[k] < requests.len()
                &&& requests[origin[k]].id == barrier.id
                &&& requests[origin[k]].position == Some(
                    (barrier.x1, barrier.y1, barrier.x2, barrier.y2),
                )
                &&& barrier.id != 0
                &&& (barrier.x1 == barrier.x2) != (barrier.y1 == barrier.y2)
            },
        forall|k: int, l: int| 0 <= k < l < origin.len() ==> #[trigger] origin[k] < #[trigger] origin[l],
        forall|i: int|
            0 <= i < requests.len() && (#[trigger] requests[i]).id != 0 && (
            requests[i].position matches Some((x1, y1, x2, y2)) && (x1 == x2) != (y1 == y2))
                ==> origin.contains(i),
    decreases requests.len(),
{
    if requests.len() == 0 {
        reveal(Seq::filter);
        Seq::empty()
    } else {
        let before = requests.drop_last();
        let last = requests.last();
        let earlier = barriers_keep_the_order_of_requests(before);
        lemma_one_more_request(before, last);
        assert(before.push(last) =~= requests);
        let origin = if last.acceptable() {
            earlier.push(requests.len() - 1)
        } else {
            earlier
        };
        assert forall|i: int|
            0 <= i < requests.len() && (#[trigger] requests[i]).id != 0 && (
            requests[i].position matches Some((x1, y1, x2, y2)) && (x1 == x2) != (y1
                == y2)) implies origin.contains(i) by {
            lemma_contains_after_push(earlier, requests.len() - 1, i);
            if i < before.len() {
                assert(before[i] == requests[i]);
            }
        }
        origin
    }
}

/// The failed identifiers keep the order of the requests: each is that of a request further
/// on than the one before it, and every request with an identifier that asks for no position,
/// a slanted line or a single point is among them. The indices of these requests are
/// returned.
pub proof fn failures_keep_the_order_of_requests(requests: Seq<BarrierRequest>) -> (origin: Seq<int>)
    ensures
        origin.len() == failed(requests).len(),
        forall|k: int|
            0 <= k < origin.len() ==> {
                &&& 0 <= #[trigger] origin[k] < requests.len()
                &&& requests[origin[k]].id == failed(requests)[k]
                &&& failed(requests)[k] != 0
                &&& requests[origin[k]].position matches Some((x1, y1, x2, y2)) ==> (x1 == x2) == (
                y1 == y2)
            },
        forall|k: int, l: int| 0 <= k < l < origin.len() ==> #[trigger] origin[k] < #[trigger] origin[l],
        forall|i: int|
            0 <= i < requests.len() && (#[trigger] requests[i]).id != 0 && (
            requests[i].position matches Some((x1, y1, x2, y2)) ==> (x1 == x2) == (y1 == y2))
                ==> origin.contains(i),
    decreases requests.len(),
{
    if requests.len() == 0 {
        reveal(Seq::filter);
        Seq::empty()
    } else {
        let before = requests.drop_last();
        let last = requests.last();
        let earlier = failures_keep_the_order_of_requests(before);
        lemma_one_more_request(before, last);
        assert(before.push(last) =~= requests);
        let origin = if last.failing() {
            earlier.push(requests.len() - 1)
        } else {
            earlier
        };
        assert forall|i: int|
            0 <= i < requests.len() && (#[trigger] requests[i]).id != 0 && (
            requests[i].position matches Some((x1, y1, x2, y2)) ==> (x1 == x2) == (y1
                == y2)) implies origin.contains(i) by {
            lemma_contains_after_push(earlier, requests.len() - 1, i);
            if i < before.len() {
                assert(before[i] == requests[i]);
            }
        }
        origin
    }
}

/// A dictionary asks for the barrier that its entries name: the integer under `barrier_id`,
/// 0 where there is none, and the first four fields of the structure under `position`, where
/// all four are integers. The requests stand in the order of the dictionaries.
pub proof fn dictionaries_are_read_by_their_entries(dicts: Seq<OptionDict>, i: int)
    requires
        0 <= i < dicts.len(),
    ensures
        requests_of(dicts).len() == dicts.len(),
        dicts[i]@.contains_key("barrier_id"@) && held_u32(dicts[i]@["barrier_id"@]) is Some ==> Some(
            requests_of(dicts)[i].id,
        ) == held_u32(dicts[i]@["barrier_id"@]),
        !dicts[i]@.contains_key("barrier_id"@) || held_u32(dicts[i]@["barrier_id"@]) is None
            ==> requests_of(dicts)[i].id == 0,
        forall|x1: i32, y1: i32, x2: i32, y2: i32|
            requests_of(dicts)[i].position == Some((x1, y1, x2, y2)) <==> (
            dicts[i]@.contains_key("position"@) && (held_fields(
                dicts[i]@["position"@],
            ) matches Some(fields) && fields.len() >= 4 && fields.take(4) == seq![
                Some(x1),
                Some(y1),
                Some(x2),
                Some(y2),
            ])),
{
    assert forall|x1: i32, y1: i32, x2: i32, y2: i32|
        requests_of(dicts)[i].position == Some((x1, y1, x2, y2)) <==> (
        dicts[i]@.contains_key("position"@) && (held_fields(dicts[i]@["position"@]) matches Some(
            fields,
        ) && fields.len() >= 4 && fields.take(4) == seq![
            Some(x1),
            Some(y1),
            Some(x2),
            Some(y2),
        ])) by {
        if let Some(fields) = held_fields(dicts[i]@["position"@]) {
            leading_fields_are_taken(fields, x1, y1, x2, y2);
        }
    }
}

/// Dictionaries can be read unless the structure under some `position` has fewer than four
/// fields and nothing but integers.
pub proof fn short_positions_cannot_be_read(dicts: Seq<OptionDict>)
    ensures
        !readable(dicts) <==> exists|i: int|
            0 <= i < dicts.len() && (#[trigger] dicts[i])@.contains_key("position"@) && (
            held_fields(dicts[i]@["position"@]) matches Some(fields) && fields.len() < 4
                && !fields.contains(None)),
{
    assert forall|i: int| 0 <= i < dicts.len() implies dict_runs_out(
        (#[trigger] dicts[i])@,
        "position"@,
    ) == (dicts[i]@.contains_key("position"@) && (held_fields(
        dicts[i]@["position"@],
    ) matches Some(fields) && fields.len() < 4 && !fields.contains(None))) by {
        if let Some(fields) = held_fields(dicts[i]@["position"@]) {
            short_structures_run_out(fields);
        }
    }
}

/// What a sequence contains after one more element.
proof fn lemma_contains_after_push<A>(s: Seq<A>, element: A, sought: A)
    ensures
        s.push(element).contains(sought) <==> s.contains(sought) || sought == element,
{
    let longer = s.push(element);
    if s.contains(sought) {
        let i = choose|i: int| 0 <= i < s.len() && s[i] == sought;
        assert(longer[i] == sought);
    }
    if sought == element {
        assert(longer[s.len() as int] == sought);
    }
    if longer.contains(sought) {
        let i = choose|i: int| 0 <= i < longer.len() && longer[i] == sought;
        if i < s.len() {
            assert(s[i] == sought);
        }
    }
}

} // verus!
