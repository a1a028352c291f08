//! The exchange for one target format: a conversion request, the owner's
//! answer, and the data, in one piece or in many.

use vstd::prelude::*;
use crate::atoms::{TargetFormat, NULL_ATOM};
use crate::chunk::{PropertyChunk, ResultBuffer};
use crate::context::ClipboardContext;
use crate::error::RetrievalError;
use crate::protocol::{Effect, EventRecord, Reply, PROPERTY_NEW_VALUE};

verus! {

/// The phase of an exchange.
#[derive(Clone, Copy, Debug, PartialEq, Eq, Structural)]
pub enum TransferState {
    /// Nothing is in progress: no exchange has started, or one has ended.
    Idle,
    /// A conversion was requested and the owner has not delivered yet.
    AwaitingConversion,
    /// The owner refused the target format.
    BadTarget,
    /// The owner delivers the data in pieces.
    Incremental,
}

/// The kind of reply that an exchange waits for.
#[derive(Clone, Copy, Debug, PartialEq, Eq, Structural)]
pub enum Awaiting {
    /// No reply: nothing is in progress.
    Nothing,
    /// The next event.
    Event,
    /// The result of a probe: a read of length zero.
    Probe,
    /// The result of the read that follows a probe.
    Chunk,
}

/// An exchange as a mathematical value.
pub ghost struct TransferModel {
    /// The handles that the requests name.
    pub ctx: ClipboardContext,
    /// The phase.
    pub state: TransferState,
    /// The kind of reply waited for.
    pub awaiting: Awaiting,
    /// The bytes gathered so far.
    pub buffer: Seq<u8>,
}

/// What one reply leads to.
pub ghost struct Transition {
    /// The exchange afterwards.
    pub next: TransferModel,
    /// The requests to issue, in order.
    pub effects: Seq<Effect>,
    /// The failure, if the reply ended the exchange with one.
    pub error: Option<RetrievalError>,
}

/// The request for a conversion to `target`.
pub open spec fn convert_effect(ctx: ClipboardContext, target: TargetFormat) -> Effect {
    Effect::ConvertSelection {
        selection: ctx.spec_selection(),
        target,
        property: ctx.spec_property(),
        window: ctx.spec_window(),
    }
}

/// The request to read the transfer property, at most `length` units of
/// four bytes.
pub open spec fn read_effect(ctx: ClipboardContext, length: u64) -> Effect {
    Effect::ReadProperty { window: ctx.spec_window(), property: ctx.spec_property(), length }
}

/// The request to delete the transfer property.
pub open spec fn delete_effect(ctx: ClipboardContext) -> Effect {
    Effect::DeleteProperty { window: ctx.spec_window(), property: ctx.spec_property() }
}

/// True of the events that an exchange in the given phase acts on: in
/// `AwaitingConversion` the owner's answer, in `Incremental` the report of
/// a new property value. Every other event is passed over.
pub open spec fn relevant(state: TransferState, event: EventRecord) -> bool {
    match (state, event) {
        (TransferState::AwaitingConversion, EventRecord::SelectionNotify { .. }) => true,
        (TransferState::Incremental, EventRecord::PropertyNotify { state }) => state
            == PROPERTY_NEW_VALUE,
        _ => false,
    }
}

impl TransferModel {
    /// An exchange that has not started.
    pub open spec fn fresh(ctx: ClipboardContext) -> TransferModel {
        TransferModel {
            ctx,
            state: TransferState::Idle,
            awaiting: Awaiting::Nothing,
            buffer: Seq::empty(),
        }
    }

    /// The phase and the kind of reply waited for go together, and no byte
    /// is held before the owner has delivered.
    pub open spec fn consistent(self) -> bool {
        &&& (self.state is Idle || self.state is BadTarget) <==> self.awaiting is Nothing
        &&& (self.state is AwaitingConversion || self.state is BadTarget) ==> self.buffer.len()
            == 0
    }

    /// Starting over: whatever was gathered is dropped, the conversion to
    /// `target` is requested, and the owner's answer is waited for.
    pub open spec fn start(self, target: TargetFormat) -> Transition {
        Transition {
            next: TransferModel {
                state: TransferState::AwaitingConversion,
                awaiting: Awaiting::Event,
                buffer: Seq::empty(),
                ..self
            },
            effects: seq![convert_effect(self.ctx, target), Effect::AwaitEvent],
            error: None,
        }
    }

    /// Nothing changes; `effects` are issued.
    pub open spec fn stay(self, effects: Seq<Effect>) -> Transition {
        Transition { next: self, effects, error: None }
    }

    /// The exchange goes on in the given phase, with the same bytes.
    pub open spec fn proceed(
        self,
        state: TransferState,
        awaiting: Awaiting,
        effects: Seq<Effect>,
    ) -> Transition {
        Transition { next: TransferModel { state, awaiting, ..self }, effects, error: None }
    }

    /// The exchange ends with a failure. Nothing gathered is kept.
    pub open spec fn fail(self, error: RetrievalError) -> Transition {
        Transition {
            next: TransferModel::fresh(self.ctx),
            effects: Seq::empty(),
            error: Some(error),
        }
    }

    /// An event arrives while one is waited for.
    ///
    /// The owner's answer with the null property refuses the target. Its
    /// answer with a property, and each report of a new value during an
    /// incremental transfer, is followed by a probe. Any other event is
    /// passed over, and the next one is waited for.
    pub open spec fn on_event(self, event: EventRecord) -> Transition {
        if !relevant(self.state, event) {
            self.stay(seq![Effect::AwaitEvent])
        } else if event matches EventRecord::SelectionNotify { property } && property
            == NULL_ATOM {
            Transition {
                next: TransferModel {
                    state: TransferState::BadTarget,
                    awaiting: Awaiting::Nothing,
                    buffer: Seq::empty(),
                    ..self
                },
                effects: Seq::empty(),
                error: None,
            }
        } else {
            self.proceed(self.state, Awaiting::Probe, seq![read_effect(self.ctx, 0)])
        }
    }

    /// The result of a probe arrives.
    ///
    /// After the owner's answer, the incremental marker is deleted and the
    /// pieces are waited for; any other type is read in full. During an
    /// incremental transfer, size zero ends the transfer, the marker is out
    /// of place, and any other value is read in full. Each full read asks
    /// for the size that the probe has just reported.
    pub open spec fn on_probe(self, probe: PropertyChunk) -> Transition {
        let incr = probe.type_id == self.ctx.spec_incr();
        match self.state {
            TransferState::AwaitingConversion => if incr {
                self.proceed(
                    TransferState::Incremental,
                    Awaiting::Event,
                    seq![delete_effect(self.ctx), Effect::Flush, Effect::AwaitEvent],
                )
            } else {
                self.proceed(
                    self.state,
                    Awaiting::Chunk,
                    seq![read_effect(self.ctx, probe.bytes_after)],
                )
            },
            TransferState::Incremental => if incr {
                self.fail(RetrievalError::MalformedTransfer)
            } else if probe.bytes_after == 0 {
                self.proceed(
                    TransferState::Idle,
                    Awaiting::Nothing,
                    seq![delete_effect(self.ctx), Effect::Flush],
                )
            } else {
                self.proceed(
                    self.state,
                    Awaiting::Chunk,
                    seq![read_effect(self.ctx, probe.bytes_after)],
                )
            },
            _ => self.fail(RetrievalError::MalformedTransfer),
        }
    }

    /// The result of a full read arrives.
    ///
    /// Its bytes go behind those gathered, and the property is deleted. That
    /// ends a transfer in one piece. An incremental one flushes the
    /// deletion, which tells the owner to write the next piece, and waits
    /// for it. A chunk whose data is not what its header calls for is out
    /// of place.
    pub open spec fn on_chunk(self, chunk: PropertyChunk) -> Transition {
        if !chunk.well_formed() {
            self.fail(RetrievalError::MalformedTransfer)
        } else {
            match self.state {
                TransferState::AwaitingConversion => Transition {
                    next: TransferModel {
                        state: TransferState::Idle,
                        awaiting: Awaiting::Nothing,
                        buffer: self.buffer + chunk.data@,
                        ..self
                    },
                    effects: seq![delete_effect(self.ctx)],
                    error: None,
                },
                TransferState::Incremental => Transition {
                    next: TransferModel {
                        awaiting: Awaiting::Event,
                        buffer: self.buffer + chunk.data@,
                        ..self
                    },
                    effects: seq![delete_effect(self.ctx), Effect::Flush, Effect::AwaitEvent],
                    error: None,
                },
                _ => self.fail(RetrievalError::MalformedTransfer),
            }
        }
    }

    /// What a reply leads to.
    ///
    /// While nothing is waited for, a reply changes nothing. An expired
    /// deadline ends the exchange with `Timeout`. A reply of another kind
    /// than the one waited for ends it with `MalformedTransfer`.
    pub open spec fn on(self, reply: Reply) -> Transition {
        match (self.awaiting, reply) {
            (Awaiting::Nothing, _) => self.stay(Seq::empty()),
            (_, Reply::DeadlineExpired) => self.fail(RetrievalError::Timeout),
            (Awaiting::Event, Reply::Event(event)) => self.on_event(event),
            (Awaiting::Probe, Reply::Property(probe)) => self.on_probe(probe),
            (Awaiting::Chunk, Reply::Property(chunk)) => self.on_chunk(chunk),
            _ => self.fail(RetrievalError::MalformedTransfer),
        }
    }
}

/// The requests end in the question that the exchange waits on: none but
/// the last expects a reply, and the last is the wait for an event, the
/// read, or neither, as the exchange waits for an event, for a property, or
/// for nothing.
pub open spec fn asks_for(effects: Seq<Effect>, awaiting: Awaiting) -> bool {
    &&& forall|i: int| 0 <= i < effects.len() - 1 ==> !(#[trigger] effects[i]).spec_expects_reply()
    &&& match awaiting {
        Awaiting::Nothing => effects.len() == 0 || !effects.last().spec_expects_reply(),
        Awaiting::Event => effects.len() > 0 && effects.last() is AwaitEvent,
        Awaiting::Probe => effects.len() > 0 && effects.last() is ReadProperty,
        Awaiting::Chunk => effects.len() > 0 && effects.last() is ReadProperty,
    }
}

/// The request concerns nothing but the context's own window, selection and
/// transfer property.
pub open spec fn within(effect: Effect, ctx: ClipboardContext) -> bool {
    match effect {
        Effect::ConvertSelection { selection, property, window, .. } => {
            &&& selection == ctx.spec_selection()
            &&& property == ctx.spec_property()
            &&& window == ctx.spec_window()
        },
        Effect::ReadProperty { window, property, .. } => {
            &&& property == ctx.spec_property()
            &&& window == ctx.spec_window()
        },
        Effect::DeleteProperty { window, property } => {
            &&& property == ctx.spec_property()
            &&& window == ctx.spec_window()
        },
        Effect::AwaitEvent => true,
        Effect::Flush => true,
    }
}

/// An exchange keeps to its own: every request that it issues concerns the
/// window, the selection and the transfer property of its context, and it
/// keeps that context throughout.
pub proof fn lemma_requests_stay_within_the_context(
    m: TransferModel,
    target: TargetFormat,
    reply: Reply,
)
    ensures
        m.start(target).next.ctx == m.ctx,
        m.on(reply).next.ctx == m.ctx,
        forall|i: int|
            0 <= i < m.start(target).effects.len() ==> within(
                #[trigger] m.start(target).effects[i],
                m.ctx,
            ),
        forall|i: int|
            0 <= i < m.on(reply).effects.len() ==> within(#[trigger] m.on(reply).effects[i], m.ctx),
{
}

/// Consistency holds of an exchange that has not started and of one that
/// has just been started, and every reply keeps it.
pub proof fn lemma_consistency_is_kept(m: TransferModel, target: TargetFormat, reply: Reply)
    ensures
        TransferModel::fresh(m.ctx).consistent(),
        m.start(target).next.consistent(),
        m.consistent() ==> m.on(reply).next.consistent(),
{
}

/// The buffer only grows: after a reply that does not end the exchange with
/// a failure, the bytes gathered before are still there, in front.
pub proof fn lemma_buffer_only_grows(m: TransferModel, reply: Reply)
    requires
        m.consistent(),
        m.on(reply).error is None,
    ensures
        m.buffer.is_prefix_of(m.on(reply).next.buffer),
{
}

/// A refused target leaves no data behind, and neither does a failure.
pub proof fn lemma_refusal_and_failure_hold_no_data(m: TransferModel, reply: Reply)
    requires
        m.consistent(),
    ensures
        m.on(reply).next.state is BadTarget ==> m.on(reply).next.buffer.len() == 0,
        m.on(reply).error is Some ==> m.on(reply).next == TransferModel::fresh(m.ctx),
{
}

/// Every value that is taken from the transfer property is deleted at once:
/// the marker of an incremental transfer, each chunk that is read, and the
/// empty value that ends an incremental transfer. The deletion comes first
/// among the requests that answer the reply, and in an incremental transfer
/// the flush comes next.
pub proof fn lemma_taken_value_is_deleted(m: TransferModel, value: PropertyChunk)
    requires
        m.on(Reply::Property(value)).error is None,
        m.awaiting is Chunk || (m.awaiting is Probe && !(m.on(
            Reply::Property(value),
        ).next.awaiting is Chunk)),
    ensures
        m.on(Reply::Property(value)).effects.len() >= 1,
        m.on(Reply::Property(value)).effects[0] == delete_effect(m.ctx),
        m.state is Incremental || m.on(Reply::Property(value)).next.state is Incremental ==> {
            &&& m.on(Reply::Property(value)).effects.len() >= 2
            &&& m.on(Reply::Property(value)).effects[1] == Effect::Flush
        },
{
}

/// Reading goes in two phases. A probe, a read of length zero, is requested
/// only in answer to an event; a read of the data only in answer to a probe,
/// and for exactly the size that the probe has just reported.
pub proof fn lemma_read_follows_probe(m: TransferModel, reply: Reply)
    ensures
        m.on(reply).next.awaiting is Probe && !(m.awaiting is Probe) ==> {
            &&& m.awaiting is Event
            &&& m.on(reply).effects == seq![read_effect(m.ctx, 0)]
        },
        m.on(reply).next.awaiting is Chunk && !(m.awaiting is Chunk) ==> {
            &&& m.awaiting is Probe
            &&& reply matches Reply::Property(probe)
            &&& m.on(reply).effects == seq![read_effect(m.ctx, probe.bytes_after)]
        },
        !(m.on(reply).next.awaiting is Probe && m.awaiting is Probe),
        !(m.on(reply).next.awaiting is Chunk && m.awaiting is Chunk),
{
}

/// The requests that answer a reply end in the question that the exchange
/// then waits on, so the caller always knows which reply to hand in next,
/// and that none is due once the exchange waits for nothing.
pub proof fn lemma_requests_end_in_the_question(
    m: TransferModel,
    target: TargetFormat,
    reply: Reply,
)
    ensures
        asks_for(m.start(target).effects, m.start(target).next.awaiting),
        !(m.awaiting is Nothing) ==> asks_for(m.on(reply).effects, m.on(reply).next.awaiting),
        m.awaiting is Nothing ==> m.on(reply).effects.len() == 0 && m.on(reply).next == m,
{
}

/// An exchange for one target format.
///
/// [`Transfer::start`] requests the conversion; [`Transfer::step`] takes each
/// reply of the connection and says what to request next. The exchange ends
/// in `Idle` with the data gathered, in `BadTarget` with none, or with an
/// error.
#[derive(Debug)]
pub struct Transfer {
    ctx: ClipboardContext,
    state: TransferState,
    awaiting: Awaiting,
    buffer: ResultBuffer,
}

impl View for Transfer {
    type V = TransferModel;

    closed spec fn view(&self) -> TransferModel {
        TransferModel {
            ctx: self.ctx,
            state: self.state,
            awaiting: self.awaiting,
            buffer: self.buffer@,
        }
    }
}

impl Transfer {
    /// An exchange that has not started.
    pub fn new(ctx: ClipboardContext) -> (transfer: Transfer)
        ensures
            transfer@ == TransferModel::fresh(ctx),
            transfer@.consistent(),
    {
        Transfer {
            ctx,
            state: TransferState::Idle,
            awaiting: Awaiting::Nothing,
            buffer: ResultBuffer::new(),
        }
    }

    /// The handles that the requests name.
    pub fn context(&self) -> (ctx: ClipboardContext)
        ensures
            ctx == self@.ctx,
    {
        self.ctx
    }

    /// The phase.
    pub fn state(&self) -> (state: TransferState)
        ensures
            state == self@.state,
    {
        self.state
    }

    /// The kind of reply waited for.
    pub fn awaiting(&self) -> (awaiting: Awaiting)
        ensures
            awaiting == self@.awaiting,
    {
        self.awaiting
    }

    /// The bytes gathered so far.
    pub fn bytes(&self) -> (bytes: &[u8])
        ensures
            bytes@ == self@.buffer,
    {
        self.buffer.as_slice()
    }

    /// Gives up the exchange for the bytes gathered.
    pub fn into_bytes(self) -> (bytes: Vec<u8>)
        ensures
            bytes@ == self@.buffer,
    {
        self.buffer.into_bytes()
    }

    /// Starts over with `target`: drops what was gathered and requests the
    /// conversion.
    pub fn start(&mut self, target: TargetFormat) -> (effects: Vec<Effect>)
        ensures
            final(self)@ == old(self)@.start(target).next,
            effects@ == old(self)@.start(target).effects,
            final(self)@.consistent(),
    {
        self.state = TransferState::AwaitingConversion;
        self.awaiting = Awaiting::Event;
        self.buffer = ResultBuffer::new();
        let mut effects: Vec<Effect> = Vec::new();
        effects.push(
            Effect::ConvertSelection {
                selection: self.ctx.selection(),
                target,
                property: self.ctx.property(),
                window: self.ctx.window(),
            },
        );
        effects.push(Effect::AwaitEvent);
        effects
    }

    /// Takes one reply of the connection and returns the requests to issue
    /// next, in order. The last of them, if it expects a reply, is the one
    /// whose reply the next call takes.
    pub fn step(&mut self, reply: &Reply) -> (r: Result<Vec<Effect>, RetrievalError>)
        ensures
            final(self)@ == old(self)@.on(*reply).next,
            match r {
                Ok(effects) => old(self)@.on(*reply).error is None && effects@ == old(self)@.on(
                    *reply,
                ).effects,
                Err(e) => old(self)@.on(*reply).error == Some(e),
            },
            old(self)@.consistent() ==> final(self)@.consistent(),
    {
        match (self.awaiting, reply) {
            (Awaiting::Nothing, _) => Ok(Vec::new()),
            (_, Reply::DeadlineExpired) => self.fail(RetrievalError::Timeout),
            (Awaiting::Event, Reply::Event(event)) => self.on_event(*event),
            (Awaiting::Probe, Reply::Property(probe)) => self.on_probe(probe),
            (Awaiting::Chunk, Reply::Property(chunk)) => self.on_chunk(chunk),
            _ => self.fail(RetrievalError::MalformedTransfer),
        }
    }

    fn fail(&mut self, error: RetrievalError) -> (r: Result<Vec<Effect>, RetrievalError>)
        ensures
            final(self)@ == old(self)@.fail(error).next,
            r == Err::<Vec<Effect>, RetrievalError>(error),
    {
        self.state = TransferState::Idle;
        self.awaiting = Awaiting::Nothing;
        self.buffer = ResultBuffer::new();
        Err(error)
    }

    fn probe_request(&self) -> (effects: Vec<Effect>)
        ensures
            effects@ == seq![read_effect(self@.ctx, 0)],
    {
        self.read_request(0)
    }

    fn read_request(&self, length: u64) -> (effects: Vec<Effect>)
        ensures
            effects@ == seq![read_effect(self@.ctx, length)],
    {
        let mut effects: Vec<Effect> = Vec::new();
        effects.push(
            Effect::ReadProperty {
                window: self.ctx.window(),
                property: self.ctx.property(),
                length,
            },
        );
        effects
    }

    fn delete_request(&self) -> (effects: Vec<Effect>)
        ensures
            effects@ == seq![delete_effect(self@.ctx)],
    {
        let mut effects: Vec<Effect> = Vec::new();
        effects.push(
            Effect::DeleteProperty { window: self.ctx.window(), property: self.ctx.property() },
        );
        effects
    }

    fn release_request(&self, then_wait: bool) -> (effects: Vec<Effect>)
        ensures
            then_wait ==> effects@ == seq![
                delete_effect(self@.ctx),
                Effect::Flush,
                Effect::AwaitEvent,
            ],
            !then_wait ==> effects@ == seq![delete_effect(self@.ctx), Effect::Flush],
    {
        let mut effects: Vec<Effect> = self.delete_request();
        effects.push(Effect::Flush);
        if then_wait {
            effects.push(Effect::AwaitEvent);
        }
        effects
    }

    fn on_event(&mut self, event: EventRecord) -> (r: Result<Vec<Effect>, RetrievalError>)
        ensures
            final(self)@ == old(self)@.on_event(event).next,
            r matches Ok(effects) && effects@ == old(self)@.on_event(event).effects,
    {
        match (self.state, event) {
            (TransferState::AwaitingConversion, EventRecord::SelectionNotify { property }) => {
                if property == NULL_ATOM {
                    self.state = TransferState::BadTarget;
                    self.awaiting = Awaiting::Nothing;
                    self.buffer = ResultBuffer::new();
                    Ok(Vec::new())
                } else {
                    self.awaiting = Awaiting::Probe;
                    Ok(self.probe_request())
                }
            },
            (TransferState::Incremental, EventRecord::PropertyNotify { state }) => {
                if state == PROPERTY_NEW_VALUE {
                    self.awaiting = Awaiting::Probe;
                    Ok(self.probe_request())
                } else {
                    Ok(self.wait_request())
                }
            },
            _ => Ok(self.wait_request()),
        }
    }

    fn wait_request(&self) -> (effects: Vec<Effect>)
        ensures
            effects@ == seq![Effect::AwaitEvent],
    {
        let mut effects: Vec<Effect> = Vec::new();
        effects.push(Effect::AwaitEvent);
        effects
    }

    fn on_probe(&mut self, probe: &PropertyChunk) -> (r: Result<Vec<Effect>, RetrievalError>)
        ensures
            final(self)@ == old(self)@.on_probe(*probe).next,
            match r {
                Ok(effects) => old(self)@.on_probe(*probe).error is None && effects@ == old(
                    self,
                )@.on_probe(*probe).effects,
                Err(e) => old(self)@.on_probe(*probe).error == Some(e),
            },
    {
        let incr: bool = probe.type_id == self.ctx.incr();
        match self.state {
            TransferState::AwaitingConversion => {
                if incr {
                    self.state = TransferState::Incremental;
                    self.awaiting = Awaiting::Event;
                    Ok(self.release_request(true))
                } else {
                    self.awaiting = Awaiting::Chunk;
                    Ok(self.read_request(probe.bytes_after))
                }
            },
            TransferState::Incremental => {
                if incr {
                    self.fail(RetrievalError::MalformedTransfer)
                } else if probe.bytes_after == 0 {
                    self.state = TransferState::Idle;
                    self.awaiting = Awaiting::Nothing;
                    Ok(self.release_request(false))
                } else {
                    self.awaiting = Awaiting::Chunk;
                    Ok(self.read_request(probe.bytes_after))
                }
            },
            _ => self.fail(RetrievalError::MalformedTransfer),
        }
    }

    fn on_chunk(&mut self, chunk: &PropertyChunk) -> (r: Result<Vec<Effect>, RetrievalError>)
        ensures
            final(self)@ == old(self)@.on_chunk(*chunk).next,
            match r {
                Ok(effects) => old(self)@.on_chunk(*chunk).error is None && effects@ == old(
                    self,
                )@.on_chunk(*chunk).effects,
                Err(e) => old(self)@.on_chunk(*chunk).error == Some(e),
            },
    {
        match self.state {
            TransferState::AwaitingConversion => {
                match self.buffer.append(chunk) {
                    Ok(()) => {
                        self.state = TransferState::Idle;
                        self.awaiting = Awaiting::Nothing;
                        Ok(self.delete_request())
                    },
                    Err(_) => self.fail(RetrievalError::MalformedTransfer),
                }
            },
            TransferState::Incremental => {
                match self.buffer.append(chunk) {
                    Ok(()) => {
                        self.awaiting = Awaiting::Event;
                        Ok(self.release_request(true))
                    },
                    Err(_) => self.fail(RetrievalError::MalformedTransfer),
                }
            },
            _ => self.fail(RetrievalError::MalformedTransfer),
        }
    }
}

} // verus!
