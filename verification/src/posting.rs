use vstd::prelude::*;

use crate::response::Response;

verus! {

/// What sending an order to the exchange asks its caller to do next.
pub enum PostAction {
    /// Build the exchange's order from the evaluated order.
    BuildOrder,
    /// Sign it into a request.
    BuildRequest,
    /// Send the request and read the answer's body (the caller records the
    /// call's time and request in the log, and a failed answer there too).
    Send,
    /// Read the body the exchange answered as its answer (a failure is
    /// recorded in the log by the caller).
    Parse,
    /// Turn the answer into the order's new state.
    MapAnswer,
    /// Record this failure's status and message in the log.
    RecordFailure(Response),
    /// Store the call's log.
    InsertLog,
    /// Sending is over, with this result.
    Finish(Result<(), Response>),
}

/// How the pending action ended: done, with the answer's body, or failed.
pub enum PostOutcome {
    Done,
    Answer(String),
    Failed(Response),
}

pub enum PostPhase {
    Building,
    BuildingRequest,
    Sending,
    Parsing,
    Mapping,
    Recording(Response),
    Logging(Response),
    Finished(Result<(), Response>),
}

/// The sending of one order.
pub struct OrderPost {
    pub phase: PostPhase,
}

/// The action a sending in this phase waits on.
pub open spec fn post_pending(p: PostPhase) -> PostAction {
    match p {
        PostPhase::Building => PostAction::BuildOrder,
        PostPhase::BuildingRequest => PostAction::BuildRequest,
        PostPhase::Sending => PostAction::Send,
        PostPhase::Parsing => PostAction::Parse,
        PostPhase::Mapping => PostAction::MapAnswer,
        PostPhase::Recording(e) => PostAction::RecordFailure(e),
        PostPhase::Logging(_) => PostAction::InsertLog,
        PostPhase::Finished(r) => PostAction::Finish(r),
    }
}

/// The phase after `p` once its action ended with `o`. A failure to build the
/// order or its request is recorded in the log, which is then stored; a
/// failed send or an unreadable answer stores the log (the caller has
/// recorded the failure); an empty object `{}` means the exchange accepted a
/// test order, and sending ends without a log; a readable answer is mapped,
/// and sending ends with the mapping's result, without a log.
pub open spec fn post_next(p: PostPhase, o: PostOutcome) -> PostPhase {
    match p {
        PostPhase::Building => match o {
            PostOutcome::Failed(e) => PostPhase::Recording(e),
            _ => PostPhase::BuildingRequest,
        },
        PostPhase::BuildingRequest => match o {
            PostOutcome::Failed(e) => PostPhase::Recording(e),
            _ => PostPhase::Sending,
        },
        PostPhase::Sending => match o {
            PostOutcome::Failed(e) => PostPhase::Logging(e),
            PostOutcome::Answer(body) => if body@ == "{}"@ {
                PostPhase::Finished(Ok(()))
            } else {
                PostPhase::Parsing
            },
            PostOutcome::Done => PostPhase::Parsing,
        },
        PostPhase::Parsing => match o {
            PostOutcome::Failed(e) => PostPhase::Logging(e),
            _ => PostPhase::Mapping,
        },
        PostPhase::Mapping => match o {
            PostOutcome::Failed(e) => PostPhase::Finished(Err(e)),
            _ => PostPhase::Finished(Ok(())),
        },
        PostPhase::Recording(e) => PostPhase::Logging(e),
        PostPhase::Logging(e) => PostPhase::Finished(Err(e)),
        PostPhase::Finished(r) => PostPhase::Finished(r),
    }
}

impl OrderPost {
    /// A new sending; its first action builds the exchange's order.
    pub fn start() -> (res: (OrderPost, PostAction))
        ensures
            res.0.phase == PostPhase::Building,
            res.1 == post_pending(res.0.phase),
    {
        (OrderPost { phase: PostPhase::Building }, PostAction::BuildOrder)
    }

    /// Reacts to the outcome of the pending action.
    pub fn step(self, o: PostOutcome) -> (res: (OrderPost, PostAction))
        ensures
            res.0.phase == post_next(self.phase, o),
            res.1 == post_pending(res.0.phase),
    {
        let phase = match self.phase {
            PostPhase::Building => match o {
                PostOutcome::Failed(e) => PostPhase::Recording(e),
                _ => PostPhase::BuildingRequest,
            },
            PostPhase::BuildingRequest => match o {
                PostOutcome::Failed(e) => PostPhase::Recording(e),
                _ => PostPhase::Sending,
            },
            PostPhase::Sending => match o {
                PostOutcome::Failed(e) => PostPhase::Logging(e),
                PostOutcome::Answer(body) => if crate::binance::Binance::order_acknowledged(body.as_str()) {
                    PostPhase::Finished(Ok(()))
                } else {
                    PostPhase::Parsing
                },
                PostOutcome::Done => PostPhase::Parsing,
            },
            PostPhase::Parsing => match o {
                PostOutcome::Failed(e) => PostPhase::Logging(e),
                _ => PostPhase::Mapping,
            },
            PostPhase::Mapping => match o {
                PostOutcome::Failed(e) => PostPhase::Finished(Err(e)),
                _ => PostPhase::Finished(Ok(())),
            },
            PostPhase::Recording(e) => PostPhase::Logging(e),
            PostPhase::Logging(e) => PostPhase::Finished(Err(e)),
            PostPhase::Finished(r) => PostPhase::Finished(r),
        };
        let action = match &phase {
            PostPhase::Building => PostAction::BuildOrder,
            PostPhase::BuildingRequest => PostAction::BuildRequest,
            PostPhase::Sending => PostAction::Send,
            PostPhase::Parsing => PostAction::Parse,
            PostPhase::Mapping => PostAction::MapAnswer,
            PostPhase::Recording(e) => PostAction::RecordFailure(e.duplicate()),
            PostPhase::Logging(_) => PostAction::InsertLog,
            PostPhase::Finished(r) => PostAction::Finish(match r {
                Ok(u) => Ok(*u),
                Err(e) => Err(e.duplicate()),
            }),
        };
        (OrderPost { phase }, action)
    }
}

/// The phase after reacting to each of `outs` in turn.
pub open spec fn post_after(p: PostPhase, outs: Seq<PostOutcome>) -> PostPhase
    decreases outs.len(),
{
    if outs.len() == 0 {
        p
    } else {
        post_after(post_next(p, outs[0]), outs.drop_first())
    }
}

/// How many times the log is stored while reacting to `outs`.
pub open spec fn logs_stored(p: PostPhase, outs: Seq<PostOutcome>) -> nat
    decreases outs.len(),
{
    if outs.len() == 0 {
        0
    } else {
        let p2 = post_next(p, outs[0]);
        (if post_pending(p2) is InsertLog { 1nat } else { 0nat }) + logs_stored(p2, outs.drop_first())
    }
}

/// How many more times the log can still be stored after phase `p`.
pub open spec fn log_budget(p: PostPhase) -> nat {
    match p {
        PostPhase::Mapping => 0,
        PostPhase::Logging(_) => 0,
        PostPhase::Finished(_) => 0,
        _ => 1,
    }
}

/// A sending stores its log at most once.
pub proof fn lemma_log_stored_at_most_once(p: PostPhase, outs: Seq<PostOutcome>)
    ensures
        logs_stored(p, outs) <= log_budget(p),
    decreases outs.len(),
{
    if outs.len() > 0 {
        lemma_log_stored_at_most_once(post_next(p, outs[0]), outs.drop_first());
    }
}

proof fn lemma_logging_ends_in_failure(e: Response, outs: Seq<PostOutcome>)
    ensures
        post_after(PostPhase::Logging(e), outs) == PostPhase::Logging(e) || post_after(PostPhase::Logging(e), outs)
            == PostPhase::Finished(Err::<(), Response>(e)),
    decreases outs.len(),
{
    if outs.len() > 0 {
        lemma_finished_stays(Err(e), outs.drop_first());
    }
}

proof fn lemma_finished_stays(r: Result<(), Response>, outs: Seq<PostOutcome>)
    ensures
        post_after(PostPhase::Finished(r), outs) == PostPhase::Finished(r),
        logs_stored(PostPhase::Finished(r), outs) == 0,
    decreases outs.len(),
{
    if outs.len() > 0 {
        lemma_finished_stays(r, outs.drop_first());
    }
}

/// A sending that succeeds stores no log: once the log is stored, sending can
/// only end in failure.
pub proof fn lemma_success_stores_no_log(p: PostPhase, outs: Seq<PostOutcome>)
    requires
        post_after(p, outs) matches PostPhase::Finished(Ok(_)),
    ensures
        logs_stored(p, outs) == 0,
    decreases outs.len(),
{
    if outs.len() > 0 {
        let p2 = post_next(p, outs[0]);
        if let PostPhase::Logging(e) = p2 {
            lemma_logging_ends_in_failure(e, outs.drop_first());
            assert(false);
        }
        lemma_success_stores_no_log(p2, outs.drop_first());
    }
}

/// A failure to build the order or its request, to send it or to read the
/// answer stores the log, and sending then ends with that failure; a failed
/// mapping ends with its failure without storing the log.
pub proof fn lemma_failures_are_logged(p: PostPhase, e: Response)
    ensures
        (p is Building || p is BuildingRequest) ==> ({
            let r = post_next(p, PostOutcome::Failed(e));
            &&& post_pending(r) == PostAction::RecordFailure(e)
            &&& post_pending(post_next(r, PostOutcome::Done)) is InsertLog
            &&& post_next(post_next(r, PostOutcome::Done), PostOutcome::Done) == PostPhase::Finished(
                Err::<(), Response>(e),
            )
        }),
        (p is Sending || p is Parsing) ==> ({
            let r = post_next(p, PostOutcome::Failed(e));
            &&& post_pending(r) is InsertLog
            &&& post_next(r, PostOutcome::Done) == PostPhase::Finished(Err::<(), Response>(e))
        }),
        p is Mapping ==> post_next(p, PostOutcome::Failed(e)) == PostPhase::Finished(Err::<(), Response>(e)),
{
}

/// The successful path: the order is built, signed and sent; an empty
/// object `{}` as the answer ends the sending at once with success, any other
/// answer is read and mapped, and a mapping that succeeds ends it with
/// success.
pub proof fn lemma_successful_post(body: String)
    ensures
        post_pending(post_next(PostPhase::Building, PostOutcome::Done)) is BuildRequest,
        post_pending(post_next(PostPhase::BuildingRequest, PostOutcome::Done)) is Send,
        body@ == "{}"@ ==> post_next(PostPhase::Sending, PostOutcome::Answer(body)) == PostPhase::Finished(
            Ok::<(), Response>(()),
        ),
        body@ != "{}"@ ==> post_pending(post_next(PostPhase::Sending, PostOutcome::Answer(body))) is Parse,
        post_pending(post_next(PostPhase::Parsing, PostOutcome::Done)) is MapAnswer,
        post_next(PostPhase::Mapping, PostOutcome::Done) == PostPhase::Finished(Ok::<(), Response>(())),
{
}

} // verus!
