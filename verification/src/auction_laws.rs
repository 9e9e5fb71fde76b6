//! What holds of the auction whatever its callers and the programs it talks
//! to do: stated over the model, and proved.

use crate::actor::ActorId;
use crate::auction_io::{AuctionAction, AuctionError, AuctionEvent, TamagotchiId, Transaction};
use crate::auction_model::{
    activated, outbid, advanced, bid_matches, bid_requested, deadline_fits, first_step, handled, reserved,
    resumed, signalled, stage_duration, stage_transaction, start_matches, start_requested, started,
    AuctionView, Resubmission, Status, MIN_DURATION,
};
use crate::protocol::{
    owner_change, owner_query, owner_told, refused, succeeded, tamagotchi_answered, token_transfer,
    tokens_moved, Call, Delayed, Env, Reply, Stage, Step,
};
use gstd::ReservationId;
use vstd::prelude::*;

verus! {

/// Whether `action`, sent by `env.source`, asks for the pending transaction
/// `tx` once more. A reservation request is no transaction and never does.
pub open spec fn asks_again(action: AuctionAction, env: Env, tx: Transaction) -> bool {
    match action {
        AuctionAction::StartAuction { tamagotchi_id, minimum_bid, duration } => start_matches(
            tx,
            tamagotchi_id,
            minimum_bid,
            duration,
        ),
        AuctionAction::MakeBid { bid } => bid_matches(tx, env.source, bid),
        AuctionAction::SettleAuction => tx is SettleAuction,
        AuctionAction::MakeReservation => false,
        AuctionAction::CompleteTx(asked) => asked == tx,
    }
}

/// The transaction ids under which a transaction makes token transfers.
pub open spec fn owned_ids(tx: Transaction) -> Set<u64> {
    match tx {
        Transaction::StartAuction { .. } => Set::empty(),
        Transaction::MakeBid { transaction_id, .. } => set![transaction_id, advanced(transaction_id, 1)],
        Transaction::SettleAuction { transaction_id } => set![transaction_id],
    }
}

/// The id under which a call asks a token program to act; `None` for a
/// call to another program.
pub open spec fn call_id(call: Call) -> Option<u64> {
    match call {
        Call::Tokens { transaction_id, .. } => Some(transaction_id),
        _ => None,
    }
}

/// The transaction id of the token transfer that a step asks for; `None`
/// for any other step.
pub open spec fn transfer_id(step: Step) -> Option<u64> {
    match step {
        Step::Await { call, .. } => call_id(call),
        _ => None,
    }
}

/// Sending the same request again while its transaction is pending takes
/// the transaction up from its first call and changes nothing: no business
/// state, no slot, no transaction id.
pub proof fn law_resubmission_resumes(
    s: AuctionView,
    env: Env,
    action: AuctionAction,
    tx: Transaction,
)
    requires
        s.transaction == Some(tx),
        asks_again(action, env, tx),
    ensures
        handled(s, env, action) == (s, first_step(s, env, tx)),
{
}

/// A request that begins a transaction, sent a second time by the same
/// sender, is answered with the very step that the first one was answered
/// with, whatever the time, and leaves the state as the first one left it.
pub proof fn law_submitting_twice_is_submitting_once(
    s: AuctionView,
    env: Env,
    later: Env,
    action: AuctionAction,
)
    requires
        s.transaction is None,
        handled(s, env, action).0.transaction is Some,
        later.source == env.source,
        later.program_id == env.program_id,
    ensures
        handled(handled(s, env, action).0, later, action) == handled(s, env, action),
{
}

/// While a transaction goes on, an answer changes nothing but the slot, and
/// whatever it changes, it empties the slot in the same step.
pub proof fn law_changes_clear_the_slot(s: AuctionView, env: Env, stage: Stage, reply: Reply)
    ensures
        resumed(s, env, stage, reply).0 == s || resumed(
            s,
            env,
            stage,
            reply,
        ).0.transaction is None,
{
}

/// A failure that leaves the transaction to be run again leaves the whole
/// state as it was, so that the next run repeats the same calls under the
/// same transaction ids.
pub proof fn law_rerun_keeps_state(s: AuctionView, env: Env, stage: Stage, reply: Reply)
    requires
        resumed(s, env, stage, reply).1 == (Step::Finish {
            reply: Err(AuctionError::RerunTransaction),
            delayed: None,
        }),
    ensures
        resumed(s, env, stage, reply).0 == s,
{
}

/// The business side of a state: everything but the slot and the counter of
/// transaction ids.
pub open spec fn business(s: AuctionView) -> AuctionView {
    AuctionView { transaction: None, transaction_id: 0, ..s }
}

/// A request changes no business state: at most it logs a transaction and
/// takes ids for it. The business state waits for the calls to succeed.
pub proof fn law_requests_change_no_business(s: AuctionView, env: Env, action: AuctionAction)
    ensures
        business(handled(s, env, action).0) == business(s),
{
}

/// An answer changes the business state only where it ends the transaction
/// with success.
pub proof fn law_business_changes_on_success_only(
    s: AuctionView,
    env: Env,
    stage: Stage,
    reply: Reply,
)
    requires
        !(resumed(s, env, stage, reply).1 matches Step::Finish { reply: Ok(_), .. }),
    ensures
        business(resumed(s, env, stage, reply).0) == business(s),
{
}

/// Whether the slot fits the business state: a pending start is long enough
/// and finds the auction idle, a pending bid finds it running and exceeds
/// the current bid.
pub open spec fn coherent(s: AuctionView) -> bool {
    match s.transaction {
        Some(Transaction::StartAuction { duration, .. }) => s.status == Status::ReadyToStart
            && duration >= MIN_DURATION,
        Some(Transaction::MakeBid { bid, .. }) => s.status == Status::InProcess && bid
            > s.current_bid,
        _ => true,
    }
}

/// Every token transfer that a transaction asks for bears one of the ids
/// that the transaction owns: the first call of a transaction, and every
/// call that follows an answer.
pub proof fn law_transfers_bear_owned_ids(
    s: AuctionView,
    env: Env,
    tx: Transaction,
    stage: Stage,
    reply: Reply,
)
    ensures
        transfer_id(first_step(s, env, tx)) matches Some(id) ==> owned_ids(tx).contains(id),
        transfer_id(resumed(s, env, stage, reply).1) matches Some(id) ==> owned_ids(
            stage_transaction(stage),
        ).contains(id),
{
}

/// The two transfers of a bid, the payment and the refund, never share a
/// transaction id.
pub proof fn law_paired_transfers_differ(transaction_id: u64)
    ensures
        advanced(transaction_id, 1) != transaction_id,
{
}

/// A request that does not ask for the pending transaction again is turned
/// away with `WrongTx` or `WrongParams`, and the whole state stays as it
/// was. Reservation requests are not meant: they are served at any time.
pub proof fn law_conflict_rejected(
    s: AuctionView,
    env: Env,
    action: AuctionAction,
    tx: Transaction,
)
    requires
        s.transaction == Some(tx),
        !(action is MakeReservation),
        !asks_again(action, env, tx),
    ensures
        handled(s, env, action).0 == s,
        handled(s, env, action).1 == (Step::Finish {
            reply: Err(AuctionError::WrongTx),
            delayed: None,
        }) || handled(s, env, action).1 == (Step::Finish {
            reply: Err(AuctionError::WrongParams),
            delayed: None,
        }),
{
}

/// Something that happens to an auction.
pub enum Event {
    /// A request arrives.
    Request { env: Env, action: AuctionAction },
    /// The answer to a call arrives at the stage that waits for it.
    Answer { env: Env, stage: Stage, reply: Reply },
    /// The host grants a reservation.
    Reservation { reservation_id: ReservationId },
    /// The host signals that a running operation was lost.
    Signal,
}

/// The state after one event.
pub open spec fn after_event(s: AuctionView, event: Event) -> AuctionView {
    match event {
        Event::Request { env, action } => handled(s, env, action).0,
        Event::Answer { env, stage, reply } => resumed(s, env, stage, reply).0,
        Event::Reservation { reservation_id } => reserved(s, reservation_id),
        Event::Signal => signalled(s).0,
    }
}

/// The state after a history of events, the earliest first.
pub open spec fn after(s: AuctionView, events: Seq<Event>) -> AuctionView
    decreases events.len(),
{
    if events.len() == 0 {
        s
    } else {
        after_event(after(s, events.drop_last()), events.last())
    }
}

/// Whatever happens, the slot goes on fitting the business state.
pub proof fn law_slot_stays_coherent(s: AuctionView, event: Event)
    requires
        coherent(s),
    ensures
        coherent(after_event(s, event)),
{
}

/// The transaction that an event begins in the state `s`, if it begins one:
/// a request that finds the slot empty and leaves a transaction in it.
pub open spec fn begun(s: AuctionView, event: Event) -> Option<Transaction> {
    if s.transaction is None && event is Request {
        after_event(s, event).transaction
    } else {
        None
    }
}

/// One event moves the counter of transaction ids forward by at most two,
/// and a transaction that it begins owns ids from the old counter up to,
/// but not including, the new one.
pub proof fn lemma_event_allocates(s: AuctionView, event: Event)
    requires
        s.transaction_id + 2 <= u64::MAX,
    ensures
        s.transaction_id <= after_event(s, event).transaction_id <= s.transaction_id + 2,
        begun(s, event) matches Some(tx) ==> forall|id: u64| #[trigger]
            owned_ids(tx).contains(id) ==> s.transaction_id <= id < after_event(
                s,
                event,
            ).transaction_id,
{
}

/// Over a history the counter of transaction ids only moves forward, by at
/// most two for each event.
pub proof fn lemma_counter_moves_forward(s: AuctionView, events: Seq<Event>, upto: int)
    requires
        0 <= upto <= events.len(),
        s.transaction_id + 2 * events.len() <= u64::MAX,
    ensures
        after(s, events.take(upto)).transaction_id <= after(s, events).transaction_id,
        after(s, events).transaction_id <= s.transaction_id + 2 * events.len(),
    decreases events.len(),
{
    if events.len() > 0 {
        let earlier = events.drop_last();
        if upto == events.len() {
            assert(events.take(upto) =~= events);
            lemma_counter_moves_forward(s, earlier, 0);
        } else {
            assert(events.take(upto) =~= earlier.take(upto));
            lemma_counter_moves_forward(s, earlier, upto);
        }
        lemma_event_allocates(after(s, earlier), events.last());
    }
}

/// Transaction ids are never used twice: of two transactions that are begun
/// in the course of one history, neither owns an id that the other owns.
/// This holds as long as the counter has not run through its whole range.
pub proof fn law_transaction_ids_never_reused(
    s: AuctionView,
    events: Seq<Event>,
    first: int,
    second: int,
)
    requires
        0 <= first < second < events.len(),
        s.transaction_id + 2 * events.len() <= u64::MAX,
        begun(after(s, events.take(first)), events[first]) is Some,
        begun(after(s, events.take(second)), events[second]) is Some,
    ensures
        owned_ids(begun(after(s, events.take(first)), events[first]).unwrap()).disjoint(
            owned_ids(begun(after(s, events.take(second)), events[second]).unwrap()),
        ),
{
    let before_first = after(s, events.take(first));
    let before_second = after(s, events.take(second));
    // The state after the first of the two events lies on the way to the
    // state before the second.
    assert(events.take(first + 1).drop_last() =~= events.take(first));
    assert(events.take(second).take(first + 1) =~= events.take(first + 1));
    lemma_counter_moves_forward(s, events.take(first), first);
    lemma_counter_moves_forward(s, events.take(second), first + 1);
    lemma_event_allocates(before_first, events[first]);
    lemma_event_allocates(before_second, events[second]);
}

/// Whether a token program, whose applied transfers are `log`, has applied
/// one under `id`.
pub open spec fn applied_under(log: Seq<Call>, id: u64) -> bool {
    exists|i: int| 0 <= i < log.len() && call_id(#[trigger] log[i]) == Some(id)
}

/// What a token program that deduplicates by transaction id makes of a
/// call: a transfer under a new id is applied and logged, one under an id
/// that was applied before changes nothing.
pub open spec fn delivered(log: Seq<Call>, call: Call) -> Seq<Call> {
    match call_id(call) {
        Some(id) => if applied_under(log, id) {
            log
        } else {
            log.push(call)
        },
        None => log,
    }
}

/// What such a token program makes of a series of calls.
pub open spec fn delivered_all(log: Seq<Call>, calls: Seq<Call>) -> Seq<Call>
    decreases calls.len(),
{
    if calls.len() == 0 {
        log
    } else {
        delivered(delivered_all(log, calls.drop_last()), calls.last())
    }
}

/// Whether no two applied transfers of a log share a transaction id.
pub open spec fn each_id_once(log: Seq<Call>) -> bool {
    forall|i: int, j: int|
        0 <= i < j < log.len() ==> call_id(#[trigger] log[i]) != call_id(#[trigger] log[j])
}

/// A delivery keeps what was applied, and keeps every id applied once.
pub proof fn lemma_delivery_keeps(log: Seq<Call>, call: Call)
    ensures
        forall|id: u64| applied_under(log, id) ==> applied_under(delivered(log, call), id),
        call_id(call) matches Some(id) ==> applied_under(delivered(log, call), id),
        each_id_once(log) ==> each_id_once(delivered(log, call)),
{
    let next = delivered(log, call);
    assert forall|id: u64| applied_under(log, id) implies applied_under(next, id) by {
        let i = choose|i: int| 0 <= i < log.len() && call_id(#[trigger] log[i]) == Some(id);
        assert(next[i] == log[i]);
    }
    if let Some(id) = call_id(call) {
        if !applied_under(log, id) {
            assert(next[log.len() as int] == call);
        }
    }
}

/// However often and in whatever order calls are issued, a deduplicating
/// token program applies at most one transfer under each transaction id.
pub proof fn law_each_id_applied_at_most_once(calls: Seq<Call>)
    ensures
        each_id_once(delivered_all(Seq::empty(), calls)),
    decreases calls.len(),
{
    if calls.len() > 0 {
        law_each_id_applied_at_most_once(calls.drop_last());
        lemma_delivery_keeps(delivered_all(Seq::empty(), calls.drop_last()), calls.last());
    }
}

/// Issuing a series of calls a second time changes nothing in a
/// deduplicating token program: no transfer is applied twice.
pub proof fn law_replay_changes_nothing(log: Seq<Call>, calls: Seq<Call>, again: int)
    requires
        0 <= again <= calls.len(),
    ensures
        delivered_all(delivered_all(log, calls), calls.take(again)) == delivered_all(log, calls),
    decreases again,
{
    if again > 0 {
        assert(calls.take(again).drop_last() =~= calls.take(again - 1));
        law_replay_changes_nothing(log, calls, again - 1);
        lemma_applied_after_delivery(log, calls, again - 1);
    }
}

/// After a series of calls was delivered, each of its transfers has its id
/// applied.
pub proof fn lemma_applied_after_delivery(log: Seq<Call>, calls: Seq<Call>, at: int)
    requires
        0 <= at < calls.len(),
    ensures
        call_id(calls[at]) matches Some(id) ==> applied_under(delivered_all(log, calls), id),
    decreases calls.len(),
{
    let earlier = calls.drop_last();
    lemma_delivery_keeps(delivered_all(log, earlier), calls.last());
    if at < calls.len() - 1 {
        lemma_applied_after_delivery(log, earlier, at);
    }
}

/// Whether an answer at a stage is the answer that its call asks for:
/// an owner is named, a transfer or an ownership change is confirmed.
pub open spec fn confirms(stage: Stage, reply: Reply) -> bool {
    match stage {
        Stage::StartOwner { .. } | Stage::SettleOwner { .. } => owner_told(reply) is Some,
        Stage::StartTransfer { .. } | Stage::SettleReturn { .. } | Stage::SettleHandOver {
            ..
        } => tamagotchi_answered(reply),
        Stage::BidPull { .. } | Stage::BidRefund { .. } | Stage::SettlePayout {
            ..
        } => tokens_moved(reply),
    }
}

/// The state and the step that are reached from `step` when the calls that
/// the auction asks for are answered by `answers`, one after the other,
/// each in its own environment.
pub open spec fn driven(s: AuctionView, step: Step, answers: Seq<(Env, Reply)>) -> (
    AuctionView,
    Step,
)
    decreases answers.len(),
{
    match step {
        Step::Await { stage, .. } => if answers.len() == 0 {
            (s, step)
        } else {
            let (next, then) = resumed(s, answers[0].0, stage, answers[0].1);
            driven(next, then, answers.skip(1))
        },
        _ => (s, step),
    }
}

/// Whether each answer that `driven` consumes confirms the call that it
/// answers, and the one that sets the auction going comes at a time that
/// leaves room for the deadline.
pub open spec fn all_confirm(s: AuctionView, step: Step, answers: Seq<(Env, Reply)>) -> bool
    decreases answers.len(),
{
    match step {
        Step::Await { stage, .. } => answers.len() > 0 ==> {
            let (next, then) = resumed(s, answers[0].0, stage, answers[0].1);
            &&& confirms(stage, answers[0].1)
            &&& deadline_fits(answers[0].0, stage, answers[0].1)
            &&& all_confirm(next, then, answers.skip(1))
        },
        _ => true,
    }
}

/// Whether the owner that an answer names may put the tamagotchi on sale
/// in the environment `env`: the auction holds it already, or the sender
/// owns it.
pub open spec fn entitled(env: Env, reply: Reply) -> bool {
    owner_told(reply) == Some(env.program_id) || owner_told(reply) == Some(env.source)
}

/// Whether a step ends a request with success.
pub open spec fn ends_well(step: Step) -> bool {
    step matches Step::Finish { reply: Ok(_), .. }
}

/// Only an answer that sets the auction going needs room for the deadline:
/// every answer to a bid or a settlement can be taken at any time, and so
/// can every answer to a start that does not start the auction.
pub proof fn law_only_the_start_needs_room(
    s: AuctionView,
    env: Env,
    stage: Stage,
    reply: Reply,
)
    ensures
        !(stage_transaction(stage) is StartAuction) ==> deadline_fits(env, stage, reply),
        !ends_well(resumed(s, env, stage, reply).1) ==> deadline_fits(env, stage, reply),
{
}

/// A transaction of any kind whose calls are all confirmed is finished
/// after at most three answers, and the slot is empty. The request
/// succeeds, but for the start of somebody who does not own the
/// tamagotchi, which is refused with `NotOwner`.
pub proof fn lemma_confirmed_transaction_finishes(
    s: AuctionView,
    env: Env,
    tx: Transaction,
    answers: Seq<(Env, Reply)>,
)
    requires
        answers.len() >= 3,
        all_confirm(s, first_step(s, env, tx), answers),
    ensures
        driven(s, first_step(s, env, tx), answers).0.transaction is None,
        ends_well(driven(s, first_step(s, env, tx), answers).1) || driven(
            s,
            first_step(s, env, tx),
            answers,
        ).1 == refused(AuctionError::NotOwner),
        tx is StartAuction && !entitled(answers[0].0, answers[0].1) <==> driven(
            s,
            first_step(s, env, tx),
            answers,
        ).1 == refused(AuctionError::NotOwner),
{
    reveal_with_fuel(driven, 4);
    reveal_with_fuel(all_confirm, 4);
}

/// Recovery converges. When the host signals the loss of a running
/// operation while a transaction is pending and a reservation is left, the
/// oldest reservation is spent on a request to complete that very
/// transaction; the auction takes that request up; and once the calls it
/// then asks for are confirmed, the transaction is finished and the slot is
/// empty, whichever kind the transaction is of. The request succeeds, but
/// for a start whose tamagotchi belongs to somebody else.
pub proof fn law_recovery_converges(
    s: AuctionView,
    env: Env,
    tx: Transaction,
    answers: Seq<(Env, Reply)>,
)
    requires
        s.transaction == Some(tx),
        s.reservations.len() > 0,
        answers.len() >= 3,
        all_confirm(signalled(s).0, first_step(signalled(s).0, env, tx), answers),
    ensures
        signalled(s).1 == Some(
            Resubmission { reservation_id: s.reservations[0], action: AuctionAction::CompleteTx(tx) },
        ),
        signalled(s).0 == (AuctionView { reservations: s.reservations.remove(0), ..s }),
        handled(signalled(s).0, env, AuctionAction::CompleteTx(tx)) == (
            signalled(s).0,
            first_step(signalled(s).0, env, tx),
        ),
        driven(signalled(s).0, first_step(signalled(s).0, env, tx), answers).0.transaction is None,
        tx is StartAuction && !entitled(answers[0].0, answers[0].1) <==> driven(
            signalled(s).0,
            first_step(signalled(s).0, env, tx),
            answers,
        ).1 == refused(AuctionError::NotOwner),
        !(tx is StartAuction && !entitled(answers[0].0, answers[0].1)) <==> ends_well(
            driven(signalled(s).0, first_step(signalled(s).0, env, tx), answers).1,
        ),
{
    lemma_confirmed_transaction_finishes(signalled(s).0, env, tx, answers);
}

/// The state that a confirmed start leaves: the auction of `tamagotchi_id`
/// runs until `duration` after `now`, and remembers `owner` as the one to
/// pay.
pub open spec fn taken_over(
    s: AuctionView,
    tamagotchi_id: TamagotchiId,
    bid: u128,
    duration: u64,
    now: u64,
    owner: ActorId,
) -> AuctionView {
    AuctionView { prev_tmg_owner: owner, ..activated(s, tamagotchi_id, bid, duration, now) }
}

/// A start by somebody who does not own the tamagotchi changes nothing.
/// The request is logged and the owner is asked for; when the answer names
/// a third party, the request is refused with `NotOwner`, no ownership
/// change is asked for, and the state is again what it was before the
/// request, with the slot empty.
pub proof fn law_not_owner_changes_nothing(
    s: AuctionView,
    env: Env,
    later: Env,
    tamagotchi_id: TamagotchiId,
    minimum_bid: u128,
    duration: u64,
    reply: Reply,
)
    requires
        s.transaction is None,
        s.status == Status::ReadyToStart,
        duration >= MIN_DURATION,
        owner_told(reply) is Some,
        !entitled(later, reply),
    ensures
        start_requested(s, env, tamagotchi_id, minimum_bid, duration).1 == (Step::Await {
            call: owner_query(tamagotchi_id),
            stage: Stage::StartOwner { tamagotchi_id, bid: minimum_bid, duration },
        }),
        deadline_fits(
            later,
            Stage::StartOwner { tamagotchi_id, bid: minimum_bid, duration },
            reply,
        ),
        resumed(
            start_requested(s, env, tamagotchi_id, minimum_bid, duration).0,
            later,
            Stage::StartOwner { tamagotchi_id, bid: minimum_bid, duration },
            reply,
        ) == (s, refused(AuctionError::NotOwner)),
{
}

/// A start by the owner asks the tamagotchi named in the request, and no
/// other, to pass to the auction. This holds whatever the time. Once the
/// tamagotchi confirms, at a time that leaves room for the deadline, the
/// auction runs, the settlement is scheduled for its end, and the slot is
/// empty.
pub proof fn law_start_takes_the_subject_over(
    s: AuctionView,
    env: Env,
    later: Env,
    last: Env,
    tamagotchi_id: TamagotchiId,
    minimum_bid: u128,
    duration: u64,
    answer: Reply,
    confirmation: Reply,
)
    requires
        s.transaction is None,
        s.status == Status::ReadyToStart,
        duration >= MIN_DURATION,
        owner_told(answer) == Some(later.source),
        later.source != later.program_id,
        tamagotchi_answered(confirmation),
    ensures
        deadline_fits(
            later,
            Stage::StartOwner { tamagotchi_id, bid: minimum_bid, duration },
            answer,
        ),
        resumed(
            start_requested(s, env, tamagotchi_id, minimum_bid, duration).0,
            later,
            Stage::StartOwner { tamagotchi_id, bid: minimum_bid, duration },
            answer,
        ) == (
            start_requested(s, env, tamagotchi_id, minimum_bid, duration).0,
            Step::Await {
                call: owner_change(tamagotchi_id, later.program_id),
                stage: Stage::StartTransfer {
                    tamagotchi_id,
                    bid: minimum_bid,
                    duration,
                    owner: later.source,
                },
            },
        ),
        last.block_timestamp + duration <= u64::MAX ==> resumed(
            start_requested(s, env, tamagotchi_id, minimum_bid, duration).0,
            last,
            Stage::StartTransfer { tamagotchi_id, bid: minimum_bid, duration, owner: later.source },
            confirmation,
        ) == (
            taken_over(s, tamagotchi_id, minimum_bid, duration, last.block_timestamp, later.source),
            started(duration),
        ),
{
}

/// The message that settles an auction is timed to its end: whenever an
/// answer starts an auction, whatever its duration, a settlement is
/// scheduled with that duration as its delay.
pub proof fn law_settlement_is_timed_to_the_end(
    s: AuctionView,
    env: Env,
    stage: Stage,
    reply: Reply,
)
    requires
        resumed(s, env, stage, reply).1 matches Step::Finish {
            reply: Ok(AuctionEvent::AuctionStarted),
            ..
        },
    ensures
        resumed(s, env, stage, reply).1 == started(stage_duration(stage)),
        started(stage_duration(stage)) == (Step::Finish {
            reply: Ok(AuctionEvent::AuctionStarted),
            delayed: Some(
                Delayed { action: AuctionAction::SettleAuction, delay: stage_duration(stage) },
            ),
        }),
        stage_transaction(stage) matches Transaction::StartAuction { duration, .. }
            && duration == stage_duration(stage),
{
}

/// A bid that is sent again while it is pending is resumed, and is paid
/// once. The second request changes nothing, takes no transaction id, and
/// asks for the payment under the id of the pending bid. The refund that
/// follows a confirmed payment bears the next id, and goes to the bidder
/// who held the highest bid before. A token program that applies each id
/// once has, after the calls were made twice, applied what it had applied
/// after the first time.
pub proof fn law_resumed_bid_is_one_bid(
    s: AuctionView,
    env: Env,
    later: Env,
    transaction_id: u64,
    bid: u128,
    paid: Reply,
    log: Seq<Call>,
)
    requires
        s.transaction == Some(Transaction::MakeBid { transaction_id, bidder: env.source, bid }),
        tokens_moved(paid),
    ensures
        bid_requested(s, env, bid) == (
            s,
            Step::Await {
                call: token_transfer(
                    transaction_id,
                    s.ft_contract_id,
                    env.source,
                    env.program_id,
                    bid,
                ),
                stage: Stage::BidPull { transaction_id, bidder: env.source, bid },
            },
        ),
        deadline_fits(later, Stage::BidPull { transaction_id, bidder: env.source, bid }, paid),
        !s.current_bidder.is_zero() ==> resumed(
            s,
            later,
            Stage::BidPull { transaction_id, bidder: env.source, bid },
            paid,
        ) == (
            s,
            Step::Await {
                call: token_transfer(
                    advanced(transaction_id, 1),
                    s.ft_contract_id,
                    later.program_id,
                    s.current_bidder,
                    s.current_bid,
                ),
                stage: Stage::BidRefund { transaction_id, bidder: env.source, bid },
            },
        ),
        s.current_bidder.is_zero() ==> resumed(
            s,
            later,
            Stage::BidPull { transaction_id, bidder: env.source, bid },
            paid,
        ) == (outbid(s, env.source, bid), succeeded(AuctionEvent::BidMade { bid })),
        transaction_id < u64::MAX ==> advanced(transaction_id, 1) == transaction_id + 1,
        advanced(transaction_id, 1) != transaction_id,
        delivered_all(delivered_all(log, bid_calls(s, env, later, transaction_id, bid)), bid_calls(
            s,
            env,
            later,
            transaction_id,
            bid,
        )) == delivered_all(log, bid_calls(s, env, later, transaction_id, bid)),
{
    let calls = bid_calls(s, env, later, transaction_id, bid);
    assert(calls.take(calls.len() as int) =~= calls);
    law_replay_changes_nothing(log, calls, calls.len() as int);
}

/// The token transfers of a bid: the payment, and the refund of the bidder
/// who held the highest bid before.
pub open spec fn bid_calls(
    s: AuctionView,
    env: Env,
    later: Env,
    transaction_id: u64,
    bid: u128,
) -> Seq<Call> {
    seq![
        token_transfer(transaction_id, s.ft_contract_id, env.source, env.program_id, bid),
        token_transfer(
            advanced(transaction_id, 1),
            s.ft_contract_id,
            later.program_id,
            s.current_bidder,
            s.current_bid,
        ),
    ]
}

/// A start that is sent again while it is pending is resumed, and ends as
/// one uninterrupted start would. The second request finds the start in
/// the slot, changes nothing and asks for the owner again. When the owner
/// is the sender and the tamagotchi confirms its transfer, one ownership
/// change has been asked for, and the state at the end is that of a single
/// start made in the state before the first request: the auction runs, the
/// minimum bid stands, and the slot is empty.
pub proof fn law_resumed_start_is_one_start(
    s: AuctionView,
    env: Env,
    again: Env,
    later: Env,
    last: Env,
    tamagotchi_id: TamagotchiId,
    minimum_bid: u128,
    duration: u64,
    answer: Reply,
    confirmation: Reply,
)
    requires
        s.transaction is None,
        s.status == Status::ReadyToStart,
        duration >= MIN_DURATION,
        owner_told(answer) == Some(later.source),
        later.source != later.program_id,
        tamagotchi_answered(confirmation),
        last.block_timestamp + duration <= u64::MAX,
    ensures
        start_requested(
            start_requested(s, env, tamagotchi_id, minimum_bid, duration).0,
            again,
            tamagotchi_id,
            minimum_bid,
            duration,
        ) == start_requested(s, env, tamagotchi_id, minimum_bid, duration),
        driven(
            start_requested(s, env, tamagotchi_id, minimum_bid, duration).0,
            start_requested(
                start_requested(s, env, tamagotchi_id, minimum_bid, duration).0,
                again,
                tamagotchi_id,
                minimum_bid,
                duration,
            ).1,
            seq![(later, answer), (last, confirmation)],
        ) == (
            taken_over(s, tamagotchi_id, minimum_bid, duration, last.block_timestamp, later.source),
            started(duration),
        ),
        taken_over(
            s,
            tamagotchi_id,
            minimum_bid,
            duration,
            last.block_timestamp,
            later.source,
        ).status == Status::InProcess,
        taken_over(
            s,
            tamagotchi_id,
            minimum_bid,
            duration,
            last.block_timestamp,
            later.source,
        ).transaction is None,
{
    let answers = seq![(later, answer), (last, confirmation)];
    assert(answers.skip(1) =~= seq![(last, confirmation)]);
    assert(answers.skip(1).skip(1) =~= Seq::<(Env, Reply)>::empty());
    reveal_with_fuel(driven, 3);
}

} // verus!
