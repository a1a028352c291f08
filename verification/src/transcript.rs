//! The shapes that the replies of a retrieval take, and what a retrieval
//! makes of each: the result that it returns and the requests that it
//! issues on the way.

use vstd::prelude::*;
use crate::atoms::{Atom, TargetFormat, NULL_ATOM};
use crate::chunk::{spec_item_width, PropertyChunk};
use crate::context::ClipboardContext;
use crate::error::RetrievalError;
use crate::protocol::{Effect, EventRecord, Reply, PROPERTY_NEW_VALUE};
use crate::retriever::{fetch_model, lemma_finished_is_final, RetrieverModel};
use crate::transfer::{
    convert_effect, delete_effect, read_effect, relevant, TransferModel, TransferState,
};

verus! {

/// The given events as replies, in order.
pub open spec fn events(records: Seq<EventRecord>) -> Seq<Reply> {
    Seq::new(records.len(), |i: int| Reply::Event(records[i]))
}

/// None of the events is one that an exchange in the given phase acts on.
pub open spec fn passed_over(state: TransferState, records: Seq<EventRecord>) -> bool {
    forall|i: int| 0 <= i < records.len() ==> !relevant(state, #[trigger] records[i])
}

/// The owner's answer to a conversion request. The null property refuses.
pub open spec fn answer(property: Atom) -> Reply {
    Reply::Event(EventRecord::SelectionNotify { property })
}

/// The report that the transfer property has a new value.
pub open spec fn new_value() -> Reply {
    Reply::Event(EventRecord::PropertyNotify { state: PROPERTY_NEW_VALUE })
}

/// `count` waits for an event.
pub open spec fn waits(count: nat) -> Seq<Effect> {
    Seq::new(count, |i: int| Effect::AwaitEvent)
}

/// The number of deletions among the requests.
pub open spec fn deletions(effects: Seq<Effect>) -> nat
    decreases effects.len(),
{
    if effects.len() == 0 {
        0
    } else {
        deletions(effects.drop_last()) + if effects.last() is DeleteProperty {
            1nat
        } else {
            0nat
        }
    }
}

/// All the requests of a retrieval that tries `formats` and receives
/// `replies`: those that begin it, then those that answer each reply.
pub open spec fn session_requests(
    ctx: ClipboardContext,
    formats: Seq<TargetFormat>,
    replies: Seq<Reply>,
) -> Seq<Effect> {
    RetrieverModel::begin(ctx, formats).effects + RetrieverModel::begin(ctx, formats).next.trace(
        replies,
    )
}

/// The requests that begin the exchange for `target`.
pub open spec fn opening(ctx: ClipboardContext, target: TargetFormat) -> Seq<Effect> {
    seq![convert_effect(ctx, target), Effect::AwaitEvent]
}

/// A transfer in one piece: events that are passed over, the owner's answer
/// with a property, the probe of that property, and its value.
pub ghost struct SingleShot {
    /// The events before the owner's answer.
    pub noise: Seq<EventRecord>,
    /// The property that the owner's answer names.
    pub property: Atom,
    /// What the probe returns.
    pub probe: PropertyChunk,
    /// What the read returns.
    pub chunk: PropertyChunk,
}

impl SingleShot {
    /// The answer names a property, the probe does not find the marker of
    /// an incremental transfer, and the value read is well formed.
    pub open spec fn valid(self, ctx: ClipboardContext) -> bool {
        &&& passed_over(TransferState::AwaitingConversion, self.noise)
        &&& self.property != NULL_ATOM
        &&& self.probe.type_id != ctx.spec_incr()
        &&& self.chunk.well_formed()
    }

    /// The replies, in order.
    pub open spec fn replies(self) -> Seq<Reply> {
        events(self.noise) + seq![
            answer(self.property),
            Reply::Property(self.probe),
            Reply::Property(self.chunk),
        ]
    }

    /// The requests that answer the replies: a wait for each event passed
    /// over, the probe, the read of the size that the probe reported, and
    /// the deletion of the property that was read.
    pub open spec fn requests(self, ctx: ClipboardContext) -> Seq<Effect> {
        waits(self.noise.len()) + seq![
            read_effect(ctx, 0),
            read_effect(ctx, self.probe.bytes_after),
            delete_effect(ctx),
        ]
    }
}

/// One piece of an incremental transfer: events that are passed over, the
/// report of a new value, the probe of it, and the value.
pub ghost struct Round {
    /// The events before the report of the new value.
    pub noise: Seq<EventRecord>,
    /// What the probe returns.
    pub probe: PropertyChunk,
    /// What the read returns.
    pub chunk: PropertyChunk,
}

impl Round {
    /// The probe finds a value that is not empty and not the marker, and
    /// the value read is well formed.
    pub open spec fn valid(self, ctx: ClipboardContext) -> bool {
        &&& passed_over(TransferState::Incremental, self.noise)
        &&& self.probe.type_id != ctx.spec_incr()
        &&& self.probe.bytes_after != 0
        &&& self.chunk.well_formed()
    }

    /// The replies, in order.
    pub open spec fn replies(self) -> Seq<Reply> {
        events(self.noise) + seq![
            new_value(),
            Reply::Property(self.probe),
            Reply::Property(self.chunk),
        ]
    }

    /// The requests that answer the replies: a wait for each event passed
    /// over, the probe, the read of the size that the probe reported, the
    /// deletion of the piece that was read, and the wait for the next.
    pub open spec fn requests(self, ctx: ClipboardContext) -> Seq<Effect> {
        waits(self.noise.len()) + seq![
            read_effect(ctx, 0),
            read_effect(ctx, self.probe.bytes_after),
            delete_effect(ctx),
            Effect::Flush,
            Effect::AwaitEvent,
        ]
    }
}

/// Every piece is valid.
pub open spec fn rounds_valid(rounds: Seq<Round>, ctx: ClipboardContext) -> bool {
    forall|i: int| 0 <= i < rounds.len() ==> (#[trigger] rounds[i]).valid(ctx)
}

/// The replies of the pieces, in order.
pub open spec fn rounds_replies(rounds: Seq<Round>) -> Seq<Reply>
    decreases rounds.len(),
{
    if rounds.len() == 0 {
        Seq::empty()
    } else {
        rounds[0].replies() + rounds_replies(rounds.drop_first())
    }
}

/// The requests that answer the pieces, in order.
pub open spec fn rounds_requests(rounds: Seq<Round>, ctx: ClipboardContext) -> Seq<Effect>
    decreases rounds.len(),
{
    if rounds.len() == 0 {
        Seq::empty()
    } else {
        rounds[0].requests(ctx) + rounds_requests(rounds.drop_first(), ctx)
    }
}

/// The bytes of the pieces, one behind the other, in order.
pub open spec fn rounds_payload(rounds: Seq<Round>) -> Seq<u8>
    decreases rounds.len(),
{
    if rounds.len() == 0 {
        Seq::empty()
    } else {
        rounds[0].chunk.data@ + rounds_payload(rounds.drop_first())
    }
}

/// An incremental transfer: the owner's answer, the probe that finds the
/// marker, the pieces, and at last a new value that the probe finds empty.
pub ghost struct Incremental {
    /// The events before the owner's answer.
    pub noise: Seq<EventRecord>,
    /// The property that the owner's answer names.
    pub property: Atom,
    /// What the first probe returns: the marker.
    pub marker: PropertyChunk,
    /// The pieces.
    pub rounds: Seq<Round>,
    /// The events between the last piece and the report of the empty value.
    pub last_noise: Seq<EventRecord>,
    /// What the last probe returns: the empty value.
    pub end: PropertyChunk,
}

impl Incremental {
    /// The answer names a property, the first probe finds the marker, every
    /// piece is valid, and the last probe finds an empty value that is not
    /// the marker.
    pub open spec fn valid(self, ctx: ClipboardContext) -> bool {
        &&& passed_over(TransferState::AwaitingConversion, self.noise)
        &&& self.property != NULL_ATOM
        &&& self.marker.type_id == ctx.spec_incr()
        &&& rounds_valid(self.rounds, ctx)
        &&& passed_over(TransferState::Incremental, self.last_noise)
        &&& self.end.type_id != ctx.spec_incr()
        &&& self.end.bytes_after == 0
    }

    /// The replies before the first piece.
    pub open spec fn head(self) -> Seq<Reply> {
        events(self.noise) + seq![answer(self.property), Reply::Property(self.marker)]
    }

    /// The replies behind the last piece.
    pub open spec fn tail(self) -> Seq<Reply> {
        events(self.last_noise) + seq![new_value(), Reply::Property(self.end)]
    }

    /// The replies, in order.
    pub open spec fn replies(self) -> Seq<Reply> {
        self.head() + rounds_replies(self.rounds) + self.tail()
    }

    /// The bytes that the transfer carries.
    pub open spec fn payload(self) -> Seq<u8> {
        rounds_payload(self.rounds)
    }

    /// The requests that answer the replies. The transfer property is
    /// deleted when the marker is found, behind every piece, and when the
    /// empty value is found.
    pub open spec fn requests(self, ctx: ClipboardContext) -> Seq<Effect> {
        waits(self.noise.len()) + seq![
            read_effect(ctx, 0),
            delete_effect(ctx),
            Effect::Flush,
            Effect::AwaitEvent,
        ] + rounds_requests(self.rounds, ctx) + waits(self.last_noise.len()) + seq![
            read_effect(ctx, 0),
            delete_effect(ctx),
            Effect::Flush,
        ]
    }
}

/// The replies carry `content`, in one piece or incrementally.
pub open spec fn delivers(ctx: ClipboardContext, replies: Seq<Reply>, content: Seq<u8>) -> bool {
    ||| exists|t: SingleShot| #[trigger]
        t.valid(ctx) && t.replies() == replies && t.chunk.data@ == content
    ||| exists|t: Incremental| #[trigger]
        t.valid(ctx) && t.replies() == replies && t.payload() == content
}

/// A refusal of each of `noises.len()` formats in turn: for each, events
/// that are passed over and then the owner's answer with the null property.
pub open spec fn refusals(noises: Seq<Seq<EventRecord>>) -> Seq<Reply>
    decreases noises.len(),
{
    if noises.len() == 0 {
        Seq::empty()
    } else {
        events(noises[0]) + seq![answer(NULL_ATOM)] + refusals(noises.drop_first())
    }
}

/// The requests that answer the refusals: for each, the waits for the
/// events passed over, and then the conversion to the next format, if there
/// is one.
pub open spec fn refusals_requests(
    ctx: ClipboardContext,
    formats: Seq<TargetFormat>,
    noises: Seq<Seq<EventRecord>>,
) -> Seq<Effect>
    decreases noises.len(),
{
    if noises.len() == 0 {
        Seq::empty()
    } else {
        waits(noises[0].len()) + RetrieverModel::begin(ctx, formats.drop_first()).effects
            + refusals_requests(ctx, formats.drop_first(), noises.drop_first())
    }
}

/// Every event among `noises` is passed over while an answer is waited for.
pub open spec fn all_passed_over(noises: Seq<Seq<EventRecord>>) -> bool {
    forall|i: int|
        0 <= i < noises.len() ==> passed_over(
            TransferState::AwaitingConversion,
            #[trigger] noises[i],
        )
}

/// The retrieval waits for an event in the given phase.
pub open spec fn waiting_in(m: RetrieverModel, state: TransferState) -> bool {
    &&& m.failure is None
    &&& m.transfer.awaiting is Event
    &&& m.transfer.state == state
    &&& (state is AwaitingConversion || state is Incremental)
}

/// Taking replies one sequence after another is taking them all in one.
pub proof fn lemma_run_in_parts(m: RetrieverModel, a: Seq<Reply>, b: Seq<Reply>)
    ensures
        m.run(a + b) == m.run(a).run(b),
        m.trace(a + b) == m.trace(a) + m.run(a).trace(b),
    decreases a.len(),
{
    if a.len() > 0 {
        assert((a + b).drop_first() =~= a.drop_first() + b);
        lemma_run_in_parts(m.on(a[0]).next, a.drop_first(), b);
    }
}

/// One reply in front of others.
pub proof fn lemma_run_first(m: RetrieverModel, reply: Reply, rest: Seq<Reply>)
    ensures
        m.run(seq![reply] + rest) == m.on(reply).next.run(rest),
        m.trace(seq![reply] + rest) == m.on(reply).effects + m.on(reply).next.trace(rest),
{
    assert((seq![reply] + rest).drop_first() =~= rest);
}

/// Events that are passed over change nothing: each is answered with the
/// wait for the next, and the retrieval stays as it is.
pub proof fn lemma_passed_over_events_change_nothing(
    m: RetrieverModel,
    records: Seq<EventRecord>,
)
    requires
        waiting_in(m, m.transfer.state),
        passed_over(m.transfer.state, records),
    ensures
        m.run(events(records)) == m,
        m.trace(events(records)) == waits(records.len()),
    decreases records.len(),
{
    if records.len() > 0 {
        let rest = records.drop_first();
        assert(events(records).drop_first() =~= events(rest));
        assert(passed_over(m.transfer.state, rest)) by {
            assert forall|i: int| 0 <= i < rest.len() implies !relevant(
                m.transfer.state,
                #[trigger] rest[i],
            ) by {
                assert(rest[i] == records[i + 1]);
            }
        }
        lemma_passed_over_events_change_nothing(m, rest);
    }
}

/// Two replies, one after the other.
proof fn lemma_run_two(m: RetrieverModel, a: Reply, b: Reply)
    ensures
        m.run(seq![a, b]) == m.on(a).next.on(b).next,
        m.trace(seq![a, b]) == m.on(a).effects + m.on(a).next.on(b).effects,
{
    assert(seq![a, b] =~= seq![a] + seq![b]);
    lemma_run_first(m, a, seq![b]);
    lemma_run_first(m.on(a).next, b, Seq::empty());
}

/// Three replies, one after the other.
proof fn lemma_run_three(m: RetrieverModel, a: Reply, b: Reply, c: Reply)
    ensures
        m.run(seq![a, b, c]) == m.on(a).next.on(b).next.on(c).next,
        m.trace(seq![a, b, c]) == m.on(a).effects + m.on(a).next.on(b).effects + m.on(
            a,
        ).next.on(b).next.on(c).effects,
{
    assert(seq![a, b, c] =~= seq![a] + seq![b, c]);
    lemma_run_first(m, a, seq![b, c]);
    lemma_run_two(m.on(a).next, b, c);
}

/// A transfer in one piece returns exactly the bytes of the value read,
/// whose number is the item count times the width of an item.
///
/// On the way, the retrieval requests the conversion to the first format,
/// probes the property, reads it at the size that the probe reported, and
/// deletes it.
pub proof fn lemma_single_shot_returns_the_value(
    ctx: ClipboardContext,
    formats: Seq<TargetFormat>,
    t: SingleShot,
)
    requires
        formats.len() > 0,
        t.valid(ctx),
    ensures
        fetch_model(ctx, formats, t.replies()) == Ok::<Seq<u8>, RetrievalError>(t.chunk.data@),
        spec_item_width(t.chunk.format) matches Some(width) && t.chunk.data@.len()
            == t.chunk.item_count * width,
        session_requests(ctx, formats, t.replies()) == opening(ctx, formats[0]) + t.requests(ctx),
{
    let m = RetrieverModel::begin(ctx, formats).next;
    let a = answer(t.property);
    let b = Reply::Property(t.probe);
    let c = Reply::Property(t.chunk);
    lemma_passed_over_events_change_nothing(m, t.noise);
    lemma_run_in_parts(m, events(t.noise), seq![a, b, c]);
    lemma_run_three(m, a, b, c);
}

/// One piece of an incremental transfer puts its bytes behind those
/// gathered and leaves the retrieval waiting for the next piece.
proof fn lemma_round_appends(m: RetrieverModel, round: Round)
    requires
        waiting_in(m, TransferState::Incremental),
        round.valid(m.transfer.ctx),
    ensures
        m.run(round.replies()) == (RetrieverModel {
            transfer: TransferModel {
                buffer: m.transfer.buffer + round.chunk.data@,
                ..m.transfer
            },
            ..m
        }),
        m.trace(round.replies()) == round.requests(m.transfer.ctx),
{
    let a = new_value();
    let b = Reply::Property(round.probe);
    let c = Reply::Property(round.chunk);
    lemma_passed_over_events_change_nothing(m, round.noise);
    lemma_run_in_parts(m, events(round.noise), seq![a, b, c]);
    lemma_run_three(m, a, b, c);
}

/// The pieces of an incremental transfer put their bytes behind those
/// gathered, in the order of their arrival.
proof fn lemma_rounds_append(m: RetrieverModel, rounds: Seq<Round>)
    requires
        waiting_in(m, TransferState::Incremental),
        rounds_valid(rounds, m.transfer.ctx),
    ensures
        m.run(rounds_replies(rounds)) == (RetrieverModel {
            transfer: TransferModel {
                buffer: m.transfer.buffer + rounds_payload(rounds),
                ..m.transfer
            },
            ..m
        }),
        m.trace(rounds_replies(rounds)) == rounds_requests(rounds, m.transfer.ctx),
    decreases rounds.len(),
{
    if rounds.len() > 0 {
        let first = rounds[0];
        let rest = rounds.drop_first();
        assert(rounds_valid(rest, m.transfer.ctx)) by {
            assert forall|i: int| 0 <= i < rest.len() implies (#[trigger] rest[i]).valid(
                m.transfer.ctx,
            ) by {
                assert(rest[i] == rounds[i + 1]);
            }
        }
        lemma_round_appends(m, first);
        let after = m.run(first.replies());
        lemma_run_in_parts(m, first.replies(), rounds_replies(rest));
        lemma_rounds_append(after, rest);
        assert(after.transfer.buffer + rounds_payload(rest) =~= m.transfer.buffer
            + rounds_payload(rounds));
    }
}

/// An incremental transfer returns the bytes of its pieces, one behind the
/// other in the order of their arrival.
///
/// On the way, the retrieval deletes the transfer property when it finds
/// the marker, behind every piece that it reads, and when it finds the
/// empty value that ends the transfer.
pub proof fn lemma_incremental_returns_the_pieces(
    ctx: ClipboardContext,
    formats: Seq<TargetFormat>,
    t: Incremental,
)
    requires
        formats.len() > 0,
        t.valid(ctx),
    ensures
        fetch_model(ctx, formats, t.replies()) == Ok::<Seq<u8>, RetrievalError>(t.payload()),
        session_requests(ctx, formats, t.replies()) == opening(ctx, formats[0]) + t.requests(ctx),
{
    let m = RetrieverModel::begin(ctx, formats).next;
    let a = answer(t.property);
    let b = Reply::Property(t.marker);
    lemma_passed_over_events_change_nothing(m, t.noise);
    lemma_run_in_parts(m, events(t.noise), seq![a, b]);
    lemma_run_two(m, a, b);
    let started = m.run(t.head());
    assert(waiting_in(started, TransferState::Incremental));

    lemma_rounds_append(started, t.rounds);
    let gathered = started.run(rounds_replies(t.rounds));
    assert(gathered.transfer.buffer =~= t.payload());

    let c = new_value();
    let d = Reply::Property(t.end);
    lemma_passed_over_events_change_nothing(gathered, t.last_noise);
    lemma_run_in_parts(gathered, events(t.last_noise), seq![c, d]);
    lemma_run_two(gathered, c, d);

    lemma_run_in_parts(m, t.head(), rounds_replies(t.rounds));
    lemma_run_in_parts(m, t.head() + rounds_replies(t.rounds), t.tail());
}

/// When the owner refuses the format being tried, the retrieval starts over
/// with the formats that are left, and holds no data as it does so. What
/// follows is the retrieval that the shorter list would have had from the
/// start.
pub proof fn lemma_refusal_moves_to_the_next_format(
    ctx: ClipboardContext,
    formats: Seq<TargetFormat>,
    noise: Seq<EventRecord>,
    rest: Seq<Reply>,
)
    requires
        formats.len() > 0,
        passed_over(TransferState::AwaitingConversion, noise),
    ensures
        RetrieverModel::begin(ctx, formats).next.run(events(noise) + seq![answer(NULL_ATOM)])
            == RetrieverModel::begin(ctx, formats.drop_first()).next,
        RetrieverModel::begin(ctx, formats.drop_first()).next.transfer.buffer.len() == 0,
        fetch_model(ctx, formats, events(noise) + seq![answer(NULL_ATOM)] + rest) == fetch_model(
            ctx,
            formats.drop_first(),
            rest,
        ),
        session_requests(ctx, formats, events(noise) + seq![answer(NULL_ATOM)] + rest) == opening(
            ctx,
            formats[0],
        ) + waits(noise.len()) + session_requests(ctx, formats.drop_first(), rest),
{
    let m = RetrieverModel::begin(ctx, formats).next;
    let refusal = seq![answer(NULL_ATOM)];
    lemma_passed_over_events_change_nothing(m, noise);
    lemma_run_in_parts(m, events(noise), refusal);
    lemma_run_first(m, answer(NULL_ATOM), Seq::empty());
    lemma_run_in_parts(m, events(noise) + refusal, rest);
}

/// After a refusal of each of the first formats, the retrieval is the one
/// that the formats behind them would have had from the start. Each format
/// refused was requested once, in the order of the list.
pub proof fn lemma_refusals_skip_formats(
    ctx: ClipboardContext,
    formats: Seq<TargetFormat>,
    noises: Seq<Seq<EventRecord>>,
    rest: Seq<Reply>,
)
    requires
        noises.len() <= formats.len(),
        all_passed_over(noises),
    ensures
        RetrieverModel::begin(ctx, formats).next.run(refusals(noises) + rest)
            == RetrieverModel::begin(ctx, formats.skip(noises.len() as int)).next.run(rest),
        fetch_model(ctx, formats, refusals(noises) + rest) == fetch_model(
            ctx,
            formats.skip(noises.len() as int),
            rest,
        ),
        session_requests(ctx, formats, refusals(noises) + rest) == RetrieverModel::begin(
            ctx,
            formats,
        ).effects + refusals_requests(ctx, formats, noises) + RetrieverModel::begin(
            ctx,
            formats.skip(noises.len() as int),
        ).next.trace(rest),
    decreases noises.len(),
{
    if noises.len() == 0 {
        assert(formats.skip(0) =~= formats);
    } else {
        let others = noises.drop_first();
        let fewer = formats.drop_first();
        assert(all_passed_over(others)) by {
            assert forall|i: int| 0 <= i < others.len() implies passed_over(
                TransferState::AwaitingConversion,
                #[trigger] others[i],
            ) by {
                assert(others[i] == noises[i + 1]);
            }
        }
        lemma_refusal_moves_to_the_next_format(
            ctx,
            formats,
            noises[0],
            refusals(others) + rest,
        );
        assert(refusals(noises) + rest =~= events(noises[0]) + seq![answer(NULL_ATOM)] + (refusals(
            others,
        ) + rest));
        lemma_run_in_parts(
            RetrieverModel::begin(ctx, formats).next,
            events(noises[0]) + seq![answer(NULL_ATOM)],
            refusals(others) + rest,
        );
        lemma_refusals_skip_formats(ctx, fewer, others, rest);
        assert(fewer.skip(others.len() as int) =~= formats.skip(noises.len() as int));
    }
}

/// When the owner refuses every format on the list, the retrieval fails
/// with `FormatNegotiationFailed`, whatever replies follow, and holds no
/// data. It has requested each format once and nothing else.
pub proof fn lemma_all_refused_fails(
    ctx: ClipboardContext,
    formats: Seq<TargetFormat>,
    noises: Seq<Seq<EventRecord>>,
    rest: Seq<Reply>,
)
    requires
        noises.len() == formats.len(),
        all_passed_over(noises),
    ensures
        fetch_model(ctx, formats, refusals(noises) + rest) == Err::<Seq<u8>, RetrievalError>(
            RetrievalError::FormatNegotiationFailed,
        ),
        RetrieverModel::begin(ctx, formats).next.run(refusals(noises) + rest).transfer.buffer.len()
            == 0,
        session_requests(ctx, formats, refusals(noises) + rest) == RetrieverModel::begin(
            ctx,
            formats,
        ).effects + refusals_requests(ctx, formats, noises),
{
    lemma_refusals_skip_formats(ctx, formats, noises, rest);
    let none = formats.skip(noises.len() as int);
    lemma_finished_is_final(RetrieverModel::begin(ctx, none).next, rest);
}

/// Retrieving twice gives the same result: two sequences of replies that
/// carry the same content, however each is cut into pieces and whatever
/// events are passed over in each, both give exactly that content.
pub proof fn lemma_same_content_same_result(
    ctx: ClipboardContext,
    formats: Seq<TargetFormat>,
    first: Seq<Reply>,
    second: Seq<Reply>,
    content: Seq<u8>,
)
    requires
        formats.len() > 0,
        delivers(ctx, first, content),
        delivers(ctx, second, content),
    ensures
        fetch_model(ctx, formats, first) == Ok::<Seq<u8>, RetrievalError>(content),
        fetch_model(ctx, formats, second) == fetch_model(ctx, formats, first),
{
    lemma_delivered_content_is_returned(ctx, formats, first, content);
    lemma_delivered_content_is_returned(ctx, formats, second, content);
}

/// Replies that carry a content give exactly that content.
pub proof fn lemma_delivered_content_is_returned(
    ctx: ClipboardContext,
    formats: Seq<TargetFormat>,
    replies: Seq<Reply>,
    content: Seq<u8>,
)
    requires
        formats.len() > 0,
        delivers(ctx, replies, content),
    ensures
        fetch_model(ctx, formats, replies) == Ok::<Seq<u8>, RetrievalError>(content),
{
    if exists|t: SingleShot| #[trigger]
        t.valid(ctx) && t.replies() == replies && t.chunk.data@ == content {
        let t = choose|t: SingleShot| #[trigger]
            t.valid(ctx) && t.replies() == replies && t.chunk.data@ == content;
        lemma_single_shot_returns_the_value(ctx, formats, t);
    } else {
        let t = choose|t: Incremental| #[trigger]
            t.valid(ctx) && t.replies() == replies && t.payload() == content;
        lemma_incremental_returns_the_pieces(ctx, formats, t);
    }
}

/// The deletions among requests in two parts are those of the parts.
pub proof fn lemma_deletions_add_up(a: Seq<Effect>, b: Seq<Effect>)
    ensures
        deletions(a + b) == deletions(a) + deletions(b),
    decreases b.len(),
{
    if b.len() > 0 {
        assert((a + b).drop_last() =~= a + b.drop_last());
        lemma_deletions_add_up(a, b.drop_last());
    }
}

/// A wait deletes nothing.
proof fn lemma_waits_delete_nothing(count: nat)
    ensures
        deletions(waits(count)) == 0,
    decreases count,
{
    if count > 0 {
        assert(waits(count).drop_last() =~= waits((count - 1) as nat));
        lemma_waits_delete_nothing((count - 1) as nat);
    }
}

/// The requests that answer one piece delete once.
proof fn lemma_round_deletes_once(round: Round, ctx: ClipboardContext)
    ensures
        deletions(round.requests(ctx)) == 1,
{
    let fixed = seq![
        read_effect(ctx, 0),
        read_effect(ctx, round.probe.bytes_after),
        delete_effect(ctx),
        Effect::Flush,
        Effect::AwaitEvent,
    ];
    lemma_waits_delete_nothing(round.noise.len());
    lemma_deletions_add_up(waits(round.noise.len()), fixed);
    assert(deletions(fixed) == 1) by {
        reveal_with_fuel(deletions, 6);
    }
}

/// The requests that answer the pieces delete once for each piece.
proof fn lemma_rounds_delete_once_each(rounds: Seq<Round>, ctx: ClipboardContext)
    ensures
        deletions(rounds_requests(rounds, ctx)) == rounds.len(),
    decreases rounds.len(),
{
    if rounds.len() > 0 {
        lemma_round_deletes_once(rounds[0], ctx);
        lemma_rounds_delete_once_each(rounds.drop_first(), ctx);
        lemma_deletions_add_up(
            rounds[0].requests(ctx),
            rounds_requests(rounds.drop_first(), ctx),
        );
    }
}

/// A transfer in one piece deletes the transfer property once. An
/// incremental transfer deletes it once for the marker, once behind each
/// piece, and once for the empty value at the end.
pub proof fn lemma_deletions_are_counted(
    ctx: ClipboardContext,
    single: SingleShot,
    incremental: Incremental,
)
    ensures
        deletions(single.requests(ctx)) == 1,
        deletions(incremental.requests(ctx)) == incremental.rounds.len() + 2,
{
    let one = seq![
        read_effect(ctx, 0),
        read_effect(ctx, single.probe.bytes_after),
        delete_effect(ctx),
    ];
    lemma_waits_delete_nothing(single.noise.len());
    lemma_deletions_add_up(waits(single.noise.len()), one);
    assert(deletions(one) == 1) by {
        reveal_with_fuel(deletions, 4);
    }

    let head = seq![
        read_effect(ctx, 0),
        delete_effect(ctx),
        Effect::Flush,
        Effect::AwaitEvent,
    ];
    let tail = seq![read_effect(ctx, 0), delete_effect(ctx), Effect::Flush];
    assert(deletions(head) == 1) by {
        reveal_with_fuel(deletions, 5);
    }
    assert(deletions(tail) == 1) by {
        reveal_with_fuel(deletions, 4);
    }
    let first = waits(incremental.noise.len());
    let pieces = rounds_requests(incremental.rounds, ctx);
    let last = waits(incremental.last_noise.len());
    lemma_waits_delete_nothing(incremental.noise.len());
    lemma_waits_delete_nothing(incremental.last_noise.len());
    lemma_rounds_delete_once_each(incremental.rounds, ctx);
    lemma_deletions_add_up(first, head);
    lemma_deletions_add_up(first + head, pieces);
    lemma_deletions_add_up(first + head + pieces, last);
    lemma_deletions_add_up(first + head + pieces + last, tail);
}

} // verus!
