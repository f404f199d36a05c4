//! The dispatch of a batch of call requests.
//!
//! A dispatch is a table with one slot per request, in the order of the
//! batch. A request that names no registered tool, or whose arguments do
//! not fit the tool's parameters, has its failure in its slot from the
//! start. Every other request waits for its handler: whoever runs the
//! handlers reports each reply under the position of its request, in any
//! order, and the results come out in the order of the batch.

use vstd::prelude::*;
use crate::ai_tools::{
    entry_for, lemma_entry_found, lemma_unregistered_name, names_distinct, AiTools, HandlerEntry,
};
use crate::call::{CallRequest, CallRequestView, CallResult, CallResultView, Outcome, OutcomeView};
use crate::error::RegistryError;
use crate::reply::{
    call_reply, cancelled, declared_message_of, fault_kind_of, fault_reply, outcome_of,
    reply_of_call, reply_outcome, unknown_tool, HandlerReply, HandlerReplyView,
};

verus! {

/// The outcome that a request has before any handler runs: the failure of
/// a request that names no registered tool or whose arguments do not fit;
/// `None` for a request that is to be handed to its handler.
pub open spec fn preflight(entries: Seq<HandlerEntry>, request: CallRequestView) -> Option<
    OutcomeView,
> {
    match entry_for(entries, request.name) {
        None => Some(OutcomeView::Failure(unknown_tool(request.name))),
        Some(entry) => match entry.expected_schema.argument_fault(request.raw_arguments) {
            Some(fault) => Some(OutcomeView::Failure(fault.description())),
            None => None,
        },
    }
}

/// The slots after the reply `reply` is reported for position `index`: the
/// reply's outcome stands in that slot if the slot was empty; a report for
/// a slot that is filled, or for no slot, changes nothing.
pub open spec fn recorded(
    requests: Seq<CallRequest>,
    slots: Seq<Option<OutcomeView>>,
    index: int,
    reply: HandlerReplyView,
) -> Seq<Option<OutcomeView>> {
    if 0 <= index < slots.len() && slots[index] is None {
        slots.update(index, Some(reply_outcome(requests[index].name@, reply)))
    } else {
        slots
    }
}

/// The result of the request `request` whose slot holds `slot`: what the
/// slot holds, and a cancellation where it holds nothing.
pub open spec fn result_of(request: CallRequestView, slot: Option<OutcomeView>) -> CallResultView {
    CallResultView {
        id: request.id,
        outcome: match slot {
            Some(outcome) => outcome,
            None => OutcomeView::Failure(cancelled()),
        },
    }
}

/// The outcome that `request` has before any handler runs.
pub fn check_request(tools: &AiTools, request: &CallRequest) -> (outcome: Option<Outcome>)
    ensures
        match outcome {
            Some(failure) => preflight(tools.entries(), request@) == Some(failure@),
            None => preflight(tools.entries(), request@) is None,
        },
{
    match tools.resolve(request.name.as_str()) {
        None => Some(Outcome::Failure(RegistryError::Unknown(request.name.clone()).message())),
        Some(entry) => match entry.expected_schema.check_arguments(&request.raw_arguments) {
            Ok(_) => None,
            Err(fault) => Some(Outcome::Failure(fault.message())),
        },
    }
}

/// A batch under dispatch.
pub struct Dispatch {
    requests: Vec<CallRequest>,
    slots: Vec<Option<Outcome>>,
}

impl Dispatch {
    #[verifier::type_invariant]
    spec fn well_formed(&self) -> bool {
        self.slots@.len() == self.requests@.len()
    }

    /// The requests of the batch, in order.
    pub closed spec fn requests(&self) -> Seq<CallRequest> {
        self.requests@
    }

    /// The slots of the batch: for each request the outcome that it has so
    /// far.
    pub closed spec fn slots(&self) -> Seq<Option<OutcomeView>> {
        Seq::new(
            self.requests@.len(),
            |i: int|
                match self.slots@[i] {
                    Some(outcome) => Some(outcome@),
                    None => None,
                },
        )
    }

    /// Starts the dispatch of `batch`: each request has its slot, filled
    /// where the request fails before any handler runs.
    pub fn begin(tools: &AiTools, batch: Vec<CallRequest>) -> (dispatch: Dispatch)
        ensures
            dispatch.requests() == batch@,
            dispatch.slots().len() == batch@.len(),
            forall|i: int|
                0 <= i < batch@.len() ==> (#[trigger] dispatch.slots()[i]) == preflight(
                    tools.entries(),
                    batch@[i]@,
                ),
    {
        let mut slots: Vec<Option<Outcome>> = Vec::new();
        let mut i: usize = 0;
        while i < batch.len()
            invariant
                i <= batch@.len(),
                slots@.len() == i,
                forall|k: int|
                    0 <= k < i ==> (match (#[trigger] slots@[k]) {
                        Some(outcome) => Some(outcome@),
                        None => None,
                    }) == preflight(tools.entries(), batch@[k]@),
            decreases batch.len() - i,
        {
            slots.push(check_request(tools, &batch[i]));
            i += 1;
        }
        Dispatch { requests: batch, slots }
    }

    /// How many requests the batch has.
    pub fn len(&self) -> (n: usize)
        ensures
            n == self.requests().len(),
            n == self.slots().len(),
    {
        self.requests.len()
    }

    /// The request at `index`, if there is one.
    pub fn request(&self, index: usize) -> (request: Option<&CallRequest>)
        ensures
            match request {
                Some(found) => index < self.requests().len() && *found == self.requests()[index as int],
                None => index >= self.requests().len(),
            },
    {
        if index < self.requests.len() {
            Some(&self.requests[index])
        } else {
            None
        }
    }

    /// Whether the request at `index` waits for its handler.
    pub fn is_pending(&self, index: usize) -> (pending: bool)
        ensures
            pending == (index < self.slots().len() && self.slots()[index as int] is None),
    {
        proof {
            use_type_invariant(self);
        }
        if index < self.slots.len() {
            self.slots[index].is_none()
        } else {
            false
        }
    }

    /// The positions of the requests that wait for their handlers, in
    /// ascending order.
    pub fn pending(&self) -> (waiting: Vec<usize>)
        ensures
            forall|k: int|
                0 <= k < waiting@.len() ==> (#[trigger] waiting@[k]) < self.slots().len()
                    && self.slots()[waiting@[k] as int] is None,
            forall|a: int, b: int|
                0 <= a < b < waiting@.len() ==> (#[trigger] waiting@[a]) < (#[trigger] waiting@[b]),
            forall|i: int|
                0 <= i < self.slots().len() && (#[trigger] self.slots()[i]) is None
                    ==> waiting@.contains(i as usize),
    {
        proof {
            use_type_invariant(self);
        }
        let mut waiting: Vec<usize> = Vec::new();
        let mut i: usize = 0;
        while i < self.slots.len()
            invariant
                i <= self.slots@.len(),
                self.slots@.len() == self.requests@.len(),
                forall|k: int|
                    0 <= k < waiting@.len() ==> (#[trigger] waiting@[k]) < i
                        && self.slots@[waiting@[k] as int] is None,
                forall|a: int, b: int|
                    0 <= a < b < waiting@.len() ==> (#[trigger] waiting@[a]) < (
                    #[trigger] waiting@[b]),
                forall|j: int|
                    0 <= j < i && (#[trigger] self.slots@[j]) is None ==> waiting@.contains(
                        j as usize,
                    ),
            decreases self.slots.len() - i,
        {
            if self.slots[i].is_none() {
                let ghost before = waiting@;
                waiting.push(i);
                proof {
                    assert(waiting@[before.len() as int] == i);
                    assert forall|j: int|
                        0 <= j < i + 1 && (#[trigger] self.slots@[j]) is None implies waiting@.contains(
                        j as usize,
                    ) by {
                        if j < i {
                            let k = choose|k: int| 0 <= k < before.len() && before[k] == j as usize;
                            assert(waiting@[k] == j as usize);
                        }
                    }
                }
            }
            i += 1;
        }
        waiting
    }

    /// Whether every request has its outcome.
    pub fn is_complete(&self) -> (complete: bool)
        ensures
            complete == (forall|i: int|
                0 <= i < self.slots().len() ==> (#[trigger] self.slots()[i]) is Some),
    {
        proof {
            use_type_invariant(self);
        }
        let mut i: usize = 0;
        while i < self.slots.len()
            invariant
                i <= self.slots@.len(),
                self.slots@.len() == self.requests@.len(),
                forall|k: int| 0 <= k < i ==> (#[trigger] self.slots@[k]) is Some,
            decreases self.slots.len() - i,
        {
            if self.slots[i].is_none() {
                assert(self.slots()[i as int] is None);
                return false;
            }
            i += 1;
        }
        assert forall|k: int| 0 <= k < self.slots().len() implies (#[trigger] self.slots()[k]) is Some by {
            assert(self.slots@[k] is Some);
        }
        true
    }

    /// Reports the reply of the handler of the request at `index`. The
    /// reply's outcome fills the slot if the slot was empty, and the call
    /// returns `true`; a report for a slot that is filled, or for no slot,
    /// changes nothing and returns `false`.
    pub fn record(&mut self, index: usize, reply: HandlerReply) -> (taken: bool)
        ensures
            final(self).requests() == old(self).requests(),
            final(self).slots() == recorded(
                old(self).requests(),
                old(self).slots(),
                index as int,
                reply@,
            ),
            taken == (index < old(self).slots().len() && old(self).slots()[index as int] is None),
    {
        proof {
            use_type_invariant(&*self);
        }
        if index < self.slots.len() && self.slots[index].is_none() {
            let outcome = outcome_of(self.requests[index].name.as_str(), reply);
            self.slots[index] = Some(outcome);
            proof {
                assert(self.slots() =~= recorded(
                    old(self).requests(),
                    old(self).slots(),
                    index as int,
                    reply@,
                ));
            }
            true
        } else {
            false
        }
    }

    /// Reports the router's answer to the call of the request at `index`,
    /// as [`Dispatch::record`] reports the reply that the answer stands
    /// for: the value of a response, or the reply of the fault of a failed
    /// call. The one thing left open is the text that the error of a
    /// failed call displays as.
    pub fn record_call(
        &mut self,
        index: usize,
        call: Result<rpc_router::CallResponse, rpc_router::CallError>,
    ) -> (taken: bool)
        ensures
            final(self).requests() == old(self).requests(),
            exists|text: Seq<char>|
                final(self).slots() == recorded(
                    old(self).requests(),
                    old(self).slots(),
                    index as int,
                    #[trigger] call_reply(call, text),
                ),
            taken == (index < old(self).slots().len() && old(self).slots()[index as int] is None),
    {
        let ghost answer = call;
        let reply = reply_of_call(call);
        proof {
            if answer is Ok {
                assert(reply@ == call_reply(answer, Seq::<char>::empty()));
            } else {
                let failed = answer->Err_0;
                let text = choose|text: Seq<char>|
                    reply@ == #[trigger] fault_reply(
                        fault_kind_of(failed),
                        text,
                        declared_message_of(failed),
                    );
                assert(reply@ == call_reply(answer, text));
            }
        }
        self.record(index, reply)
    }

    /// Ends the dispatch: one result per request, in the order of the
    /// batch, each with the id of its request. A request that still waits
    /// is recorded as cancelled.
    pub fn finish(self) -> (results: Vec<CallResult>)
        ensures
            results@.len() == self.requests().len(),
            forall|i: int|
                0 <= i < results@.len() ==> (#[trigger] results@[i])@ == result_of(
                    self.requests()[i]@,
                    self.slots()[i],
                ),
    {
        proof {
            use_type_invariant(&self);
        }
        let mut results: Vec<CallResult> = Vec::new();
        let mut i: usize = 0;
        while i < self.requests.len()
            invariant
                i <= self.requests@.len(),
                self.slots@.len() == self.requests@.len(),
                results@.len() == i,
                forall|k: int|
                    0 <= k < i ==> (#[trigger] results@[k])@ == result_of(
                        self.requests()[k]@,
                        self.slots()[k],
                    ),
            decreases self.requests.len() - i,
        {
            let outcome = match &self.slots[i] {
                Some(outcome) => outcome.clone(),
                None => Outcome::Failure(String::from_str("cancelled")),
            };
            results.push(CallResult { id: self.requests[i].id.clone(), outcome });
            i += 1;
        }
        results
    }
}

/// Whether `outcome` is an outcome of `request` under `invoke`: the failure
/// that the request has before any handler runs, else the outcome of some
/// reply that `invoke` may give for it.
pub open spec fn is_outcome_under<C, F: Fn(&C, &CallRequest) -> HandlerReply>(
    invoke: F,
    context: &C,
    entries: Seq<HandlerEntry>,
    request: CallRequest,
    outcome: OutcomeView,
) -> bool {
    match preflight(entries, request@) {
        Some(failure) => outcome == failure,
        None => exists|reply: HandlerReply|
            call_ensures(invoke, (context, &request), reply) && outcome == reply_outcome(
                request.name@,
                reply@,
            ),
    }
}

/// Dispatches `batch`: each request that names a registered tool and whose
/// arguments fit is handed to `invoke`, with the shared context, one after
/// the other in the order of the batch. There is one result per request,
/// in that order, each with the id of its request.
pub fn dispatch<C, F>(tools: &AiTools, context: &C, batch: Vec<CallRequest>, invoke: F) -> (results:
    Vec<CallResult>) where F: Fn(&C, &CallRequest) -> HandlerReply
    requires
        forall|request: &CallRequest| call_requires(invoke, (context, request)),
    ensures
        results@.len() == batch@.len(),
        forall|i: int| 0 <= i < batch@.len() ==> (#[trigger] results@[i]).id@ == batch@[i].id@,
        forall|i: int|
            0 <= i < batch@.len() ==> is_outcome_under(
                invoke,
                context,
                tools.entries(),
                batch@[i],
                (#[trigger] results@[i]).outcome@,
            ),
{
    let ghost entries = tools.entries();
    let ghost all = batch@;
    let mut dispatch = Dispatch::begin(tools, batch);
    let n = dispatch.len();
    let mut i: usize = 0;
    while i < n
        invariant
            i <= n,
            n == all.len(),
            dispatch.requests() == all,
            dispatch.slots().len() == n,
            forall|request: &CallRequest| call_requires(invoke, (context, request)),
            forall|k: int|
                i <= k < n ==> (#[trigger] dispatch.slots()[k]) == preflight(entries, all[k]@),
            forall|k: int|
                0 <= k < i ==> (#[trigger] dispatch.slots()[k]) is Some && is_outcome_under(
                    invoke,
                    context,
                    entries,
                    all[k],
                    dispatch.slots()[k]->0,
                ),
        decreases n - i,
    {
        if dispatch.is_pending(i) {
            let reply = match dispatch.request(i) {
                Some(request) => invoke(context, request),
                None => HandlerReply::Cancelled,
            };
            let ghost before = dispatch.slots();
            dispatch.record(i, reply);
            proof {
                assert(dispatch.slots() == before.update(
                    i as int,
                    Some(reply_outcome(all[i as int].name@, reply@)),
                ));
                assert(call_ensures(invoke, (context, &all[i as int]), reply));
                assert forall|k: int| 0 <= k < i implies (#[trigger] dispatch.slots()[k])
                    == before[k] by {}
                assert forall|k: int| i < k < n implies (#[trigger] dispatch.slots()[k])
                    == before[k] by {}
            }
        }
        i += 1;
    }
    let results = dispatch.finish();
    proof {
        assert forall|k: int| 0 <= k < all.len() implies is_outcome_under(
            invoke,
            context,
            entries,
            all[k],
            (#[trigger] results@[k]).outcome@,
        ) by {
            assert(dispatch.slots()[k] is Some);
        }
    }
    results
}

/// Replies reported for different requests may come in either order: the
/// slots are the same in the end.
pub proof fn lemma_replies_commute(
    requests: Seq<CallRequest>,
    slots: Seq<Option<OutcomeView>>,
    i: int,
    first: HandlerReplyView,
    j: int,
    second: HandlerReplyView,
)
    requires
        i != j,
    ensures
        recorded(requests, recorded(requests, slots, i, first), j, second) == recorded(
            requests,
            recorded(requests, slots, j, second),
            i,
            first,
        ),
{
    let one = recorded(requests, recorded(requests, slots, i, first), j, second);
    let other = recorded(requests, recorded(requests, slots, j, second), i, first);
    assert(one =~= other);
}

/// The slots after the reports of `log` were made one after the other, each
/// report a position and the reply reported for it.
pub open spec fn replayed(
    requests: Seq<CallRequest>,
    slots: Seq<Option<OutcomeView>>,
    log: Seq<(int, HandlerReplyView)>,
) -> Seq<Option<OutcomeView>>
    decreases log.len(),
{
    if log.len() == 0 {
        slots
    } else {
        recorded(requests, replayed(requests, slots, log.drop_last()), log.last().0, log.last().1)
    }
}

/// Where each request is reported at most once, what a slot holds in the
/// end depends on the reply reported for its request alone, and not on the
/// order of the reports: a slot that was filled keeps its outcome, a slot
/// whose request was reported holds the outcome of that reply, and a slot
/// whose request was never reported stays empty.
pub proof fn lemma_order_of_reports_is_immaterial(
    requests: Seq<CallRequest>,
    slots: Seq<Option<OutcomeView>>,
    log: Seq<(int, HandlerReplyView)>,
    i: int,
)
    requires
        0 <= i < slots.len(),
        forall|a: int, b: int| 0 <= a < b < log.len() ==> (#[trigger] log[a]).0 != (#[trigger] log[b]).0,
    ensures
        replayed(requests, slots, log).len() == slots.len(),
        slots[i] is Some ==> replayed(requests, slots, log)[i] == slots[i],
        slots[i] is None && (forall|k: int| 0 <= k < log.len() ==> (#[trigger] log[k]).0 != i)
            ==> replayed(requests, slots, log)[i] is None,
        forall|k: int|
            slots[i] is None && 0 <= k < log.len() && (#[trigger] log[k]).0 == i ==> replayed(
                requests,
                slots,
                log,
            )[i] == Some(reply_outcome(requests[i].name@, log[k].1)),
    decreases log.len(),
{
    if log.len() > 0 {
        let earlier = log.drop_last();
        assert forall|a: int, b: int| 0 <= a < b < earlier.len() implies (#[trigger] earlier[a]).0 != (
        #[trigger] earlier[b]).0 by {
            assert(earlier[a] == log[a]);
            assert(earlier[b] == log[b]);
        }
        lemma_order_of_reports_is_immaterial(requests, slots, earlier, i);
        let before = replayed(requests, slots, earlier);
        let last = log.len() - 1;
        assert forall|k: int|
            slots[i] is None && 0 <= k < log.len() && (#[trigger] log[k]).0 == i implies replayed(
            requests,
            slots,
            log,
        )[i] == Some(reply_outcome(requests[i].name@, log[k].1)) by {
            if k < last {
                assert(earlier[k] == log[k]);
                assert(log[k].0 != log[last].0);
            } else {
                assert forall|n: int| 0 <= n < earlier.len() implies (#[trigger] earlier[n]).0 != i by {
                    assert(earlier[n] == log[n]);
                    assert(log[n].0 != log[last].0);
                }
            }
        }
        if slots[i] is None && (forall|k: int| 0 <= k < log.len() ==> (#[trigger] log[k]).0 != i) {
            assert(log[last].0 != i);
            assert forall|n: int| 0 <= n < earlier.len() implies (#[trigger] earlier[n]).0 != i by {
                assert(earlier[n] == log[n]);
            }
        }
    }
}

/// A reply fills the slot of its own request and no other: every other
/// slot is as it was.
pub proof fn lemma_reply_is_local(
    requests: Seq<CallRequest>,
    slots: Seq<Option<OutcomeView>>,
    index: int,
    reply: HandlerReplyView,
    other: int,
)
    requires
        0 <= other < slots.len(),
        other != index,
    ensures
        recorded(requests, slots, index, reply).len() == slots.len(),
        recorded(requests, slots, index, reply)[other] == slots[other],
{
}

/// A slot that is filled stays as it is, whatever is reported later.
pub proof fn lemma_outcome_is_final(
    requests: Seq<CallRequest>,
    slots: Seq<Option<OutcomeView>>,
    index: int,
    reply: HandlerReplyView,
    filled: int,
)
    requires
        0 <= filled < slots.len(),
        slots[filled] is Some,
    ensures
        recorded(requests, slots, index, reply)[filled] == slots[filled],
{
}

/// A request that names no registered tool fails with a description that
/// ends in the name, whatever the rest of the batch holds.
pub proof fn lemma_unknown_tool_fails(entries: Seq<HandlerEntry>, request: CallRequestView)
    requires
        forall|i: int| 0 <= i < entries.len() ==> (#[trigger] entries[i]).name@ != request.name,
    ensures
        preflight(entries, request) == Some(OutcomeView::Failure(unknown_tool(request.name))),
        unknown_tool(request.name).len() == "unknown tool: "@.len() + request.name.len(),
        unknown_tool(request.name).subrange(
            "unknown tool: "@.len() as int,
            unknown_tool(request.name).len() as int,
        ) == request.name,
{
    lemma_unregistered_name(entries, request.name, 0);
    assert(unknown_tool(request.name).subrange(
        "unknown tool: "@.len() as int,
        unknown_tool(request.name).len() as int,
    ) =~= request.name);
}

/// A request for a registered tool whose arguments do not fit the tool's
/// parameters fails with the description of what is wrong with them; one
/// whose arguments fit is handed to its handler.
pub proof fn lemma_arguments_decide(
    entries: Seq<HandlerEntry>,
    request: CallRequestView,
    i: int,
)
    requires
        names_distinct(entries),
        0 <= i < entries.len(),
        entries[i].name@ == request.name,
    ensures
        entries[i].expected_schema.accepts(request.raw_arguments) ==> preflight(entries, request)
            is None,
        !entries[i].expected_schema.accepts(request.raw_arguments) ==> preflight(entries, request)
            == Some(
            OutcomeView::Failure(
                entries[i].expected_schema.argument_fault(request.raw_arguments)->0.description(),
            ),
        ),
{
    lemma_entry_found(entries, 0, i);
}

} // verus!
