//! A whole retrieval: the exchange for one target format after another,
//! until the owner delivers or the list of formats is used up.

use vstd::prelude::*;
use vstd::utf8::{decode_utf8, valid_utf8};
use crate::atoms::TargetFormat;
use crate::context::ClipboardContext;
use crate::error::RetrievalError;
use crate::protocol::{Effect, Reply};
use crate::text::{decode_lossy, utf8_lossy};
use crate::transfer::{asks_for, Awaiting, Transfer, TransferModel, TransferState};

verus! {

/// A retrieval as a mathematical value.
pub ghost struct RetrieverModel {
    /// The target formats not yet refused, the one being tried first.
    pub remaining: Seq<TargetFormat>,
    /// The exchange for the format being tried.
    pub transfer: TransferModel,
    /// The failure that ended the retrieval, if one did.
    pub failure: Option<RetrievalError>,
}

/// What one reply leads to.
pub ghost struct Advance {
    /// The retrieval afterwards.
    pub next: RetrieverModel,
    /// The requests to issue, in order.
    pub effects: Seq<Effect>,
}

impl RetrieverModel {
    /// A retrieval at its start: the conversion to the first format has
    /// been requested. With no format to try, it has failed already.
    pub open spec fn begin(ctx: ClipboardContext, formats: Seq<TargetFormat>) -> Advance {
        if formats.len() == 0 {
            Advance {
                next: RetrieverModel {
                    remaining: formats,
                    transfer: TransferModel::fresh(ctx),
                    failure: Some(RetrievalError::FormatNegotiationFailed),
                },
                effects: Seq::empty(),
            }
        } else {
            Advance {
                next: RetrieverModel {
                    remaining: formats,
                    transfer: TransferModel::fresh(ctx).start(formats[0]).next,
                    failure: None,
                },
                effects: TransferModel::fresh(ctx).start(formats[0]).effects,
            }
        }
    }

    /// The exchange is consistent and not left at a refusal; a retrieval
    /// without a failure has a format that it tries; and one with a failure
    /// holds no data.
    pub open spec fn consistent(self) -> bool {
        &&& self.transfer.consistent()
        &&& !(self.transfer.state is BadTarget)
        &&& self.failure is None ==> self.remaining.len() > 0
        &&& self.failure is Some ==> self.transfer == TransferModel::fresh(self.transfer.ctx)
    }

    /// The retrieval has ended, with the data or with a failure.
    pub open spec fn finished(self) -> bool {
        self.failure is Some || self.transfer.awaiting is Nothing
    }

    /// The result of the retrieval as it stands: the failure, if there is
    /// one; the bytes gathered, if the exchange has ended; and `Timeout`
    /// for a retrieval that is given up while it waits for a reply.
    pub open spec fn outcome(self) -> Result<Seq<u8>, RetrievalError> {
        match self.failure {
            Some(e) => Err(e),
            None => if self.transfer.state is Idle {
                Ok(self.transfer.buffer)
            } else {
                Err(RetrievalError::Timeout)
            },
        }
    }

    /// The formats that are left once the one being tried is refused.
    pub open spec fn rest(self) -> Seq<TargetFormat> {
        if self.remaining.len() > 0 {
            self.remaining.drop_first()
        } else {
            self.remaining
        }
    }

    /// What a reply leads to.
    ///
    /// A retrieval that has ended stays as it is. Otherwise the exchange
    /// takes the reply. If that fails, so does the retrieval. If the owner
    /// refuses the format, the retrieval begins anew with the formats that
    /// are left. In every other case the exchange's requests are passed on.
    pub open spec fn on(self, reply: Reply) -> Advance {
        let t = self.transfer.on(reply);
        if self.finished() {
            Advance { next: self, effects: Seq::empty() }
        } else if t.error is Some {
            Advance {
                next: RetrieverModel { transfer: t.next, failure: t.error, ..self },
                effects: Seq::empty(),
            }
        } else if t.next.state is BadTarget {
            RetrieverModel::begin(self.transfer.ctx, self.rest())
        } else {
            Advance { next: RetrieverModel { transfer: t.next, ..self }, effects: t.effects }
        }
    }

    /// The retrieval after the given replies, taken in order.
    pub open spec fn run(self, replies: Seq<Reply>) -> RetrieverModel
        decreases replies.len(),
    {
        if replies.len() == 0 {
            self
        } else {
            self.on(replies[0]).next.run(replies.drop_first())
        }
    }

    /// The requests issued in answer to the given replies, in order.
    pub open spec fn trace(self, replies: Seq<Reply>) -> Seq<Effect>
        decreases replies.len(),
    {
        if replies.len() == 0 {
            Seq::empty()
        } else {
            self.on(replies[0]).effects + self.on(replies[0]).next.trace(replies.drop_first())
        }
    }
}

/// The result of a retrieval that tries `formats` in order and receives
/// `replies`: the payload, or the failure.
pub open spec fn fetch_model(
    ctx: ClipboardContext,
    formats: Seq<TargetFormat>,
    replies: Seq<Reply>,
) -> Result<Seq<u8>, RetrievalError> {
    RetrieverModel::begin(ctx, formats).next.run(replies).outcome()
}

/// The result of a retrieval with the bytes as a sequence.
pub open spec fn bytes_view(r: Result<Vec<u8>, RetrievalError>) -> Result<
    Seq<u8>,
    RetrievalError,
> {
    match r {
        Ok(bytes) => Ok(bytes@),
        Err(e) => Err(e),
    }
}

/// A retrieval that has ended stays as it is, whatever replies follow.
pub proof fn lemma_finished_is_final(m: RetrieverModel, replies: Seq<Reply>)
    requires
        m.finished(),
    ensures
        m.run(replies) == m,
        m.trace(replies) == Seq::<Effect>::empty(),
    decreases replies.len(),
{
    if replies.len() > 0 {
        lemma_finished_is_final(m, replies.drop_first());
    }
}

/// Consistency holds of a retrieval at its start, and every reply keeps it.
pub proof fn lemma_retrieval_stays_consistent(
    ctx: ClipboardContext,
    formats: Seq<TargetFormat>,
    m: RetrieverModel,
    reply: Reply,
)
    ensures
        RetrieverModel::begin(ctx, formats).next.consistent(),
        m.consistent() ==> m.on(reply).next.consistent(),
{
}

/// The payload only grows: as long as the retrieval has not failed, the
/// bytes gathered before a reply are still there after it, in front. When a
/// format is refused and the next is tried, none had been gathered.
pub proof fn lemma_payload_only_grows(m: RetrieverModel, reply: Reply)
    requires
        m.consistent(),
        m.on(reply).next.failure is None,
    ensures
        m.transfer.buffer.is_prefix_of(m.on(reply).next.transfer.buffer),
{
}

/// The requests of a retrieval end in the question that it then waits on:
/// none but the last expects a reply, and the last one does exactly when
/// the retrieval has not finished. A caller that issues the requests in
/// order and hands in the reply to the last one is never at a loss, and is
/// done when no request expects a reply.
pub proof fn lemma_requests_end_in_the_question(
    ctx: ClipboardContext,
    formats: Seq<TargetFormat>,
    m: RetrieverModel,
    reply: Reply,
)
    ensures
        asks_for(
            RetrieverModel::begin(ctx, formats).effects,
            RetrieverModel::begin(ctx, formats).next.transfer.awaiting,
        ),
        m.consistent() ==> asks_for(m.on(reply).effects, m.on(reply).next.transfer.awaiting),
        m.consistent() ==> (m.on(reply).next.finished() <==> m.on(
            reply,
        ).next.transfer.awaiting is Nothing),
{
}

/// A retrieval in progress.
///
/// [`SelectionRetriever::begin`] returns the first requests. The caller
/// issues them, hands the reply to the last one to
/// [`SelectionRetriever::step`], issues what that returns, and so on until
/// the retrieval has finished; [`SelectionRetriever::finish`] then gives the
/// payload or the failure.
#[derive(Debug)]
pub struct SelectionRetriever {
    remaining: Vec<TargetFormat>,
    transfer: Transfer,
    failure: Option<RetrievalError>,
}

impl View for SelectionRetriever {
    type V = RetrieverModel;

    closed spec fn view(&self) -> RetrieverModel {
        RetrieverModel {
            remaining: self.remaining@,
            transfer: self.transfer@,
            failure: self.failure,
        }
    }
}

impl SelectionRetriever {
    /// Begins a retrieval that tries `formats` in order, most preferred
    /// first, and returns it with the first requests to issue.
    pub fn begin(ctx: ClipboardContext, formats: Vec<TargetFormat>) -> (r: (
        SelectionRetriever,
        Vec<Effect>,
    ))
        ensures
            r.0@ == RetrieverModel::begin(ctx, formats@).next,
            r.1@ == RetrieverModel::begin(ctx, formats@).effects,
            r.0@.consistent(),
            asks_for(r.1@, r.0@.transfer.awaiting),
    {
        let mut transfer = Transfer::new(ctx);
        if formats.len() == 0 {
            let retriever = SelectionRetriever {
                remaining: formats,
                transfer,
                failure: Some(RetrievalError::FormatNegotiationFailed),
            };
            (retriever, Vec::new())
        } else {
            let effects = transfer.start(formats[0]);
            let retriever = SelectionRetriever { remaining: formats, transfer, failure: None };
            (retriever, effects)
        }
    }

    /// Whether the retrieval has ended, with the data or with a failure.
    pub fn is_finished(&self) -> (b: bool)
        ensures
            b == self@.finished(),
    {
        self.failure.is_some() || self.transfer.awaiting() == Awaiting::Nothing
    }

    /// The phase of the exchange for the format being tried.
    pub fn state(&self) -> (state: TransferState)
        ensures
            state == self@.transfer.state,
    {
        self.transfer.state()
    }

    /// The kind of reply that the retrieval waits for.
    pub fn awaiting(&self) -> (awaiting: Awaiting)
        ensures
            awaiting == self@.transfer.awaiting,
    {
        self.transfer.awaiting()
    }

    /// The bytes gathered so far. The retriever sets no bound on their
    /// number: a caller that wants one looks here between two replies.
    pub fn bytes(&self) -> (bytes: &[u8])
        ensures
            bytes@ == self@.transfer.buffer,
    {
        self.transfer.bytes()
    }

    /// The format being tried, if the retrieval has one left.
    pub fn target(&self) -> (target: Option<TargetFormat>)
        ensures
            target == if self@.remaining.len() > 0 {
                Some(self@.remaining[0])
            } else {
                None
            },
    {
        if self.remaining.len() > 0 {
            Some(self.remaining[0])
        } else {
            None
        }
    }

    /// The retrieval after a recorded exchange: begins with `formats` and
    /// takes the replies in `stream` one by one, up to the one that ends the
    /// retrieval.
    pub fn replay(
        ctx: ClipboardContext,
        formats: Vec<TargetFormat>,
        stream: &[Reply],
    ) -> (retriever: SelectionRetriever)
        ensures
            retriever@ == RetrieverModel::begin(ctx, formats@).next.run(stream@),
    {
        let (mut retriever, _) = SelectionRetriever::begin(ctx, formats);
        let ghost first = retriever@;
        let mut i: usize = 0;
        assert(stream@.subrange(0, stream@.len() as int) =~= stream@);
        while i < stream.len() && !retriever.is_finished()
            invariant
                i <= stream.len(),
                retriever@.run(stream@.subrange(i as int, stream@.len() as int)) == first.run(
                    stream@,
                ),
            decreases stream.len() - i,
        {
            assert(stream@.subrange(i as int, stream@.len() as int).drop_first()
                =~= stream@.subrange(i + 1, stream@.len() as int));
            retriever.step(&stream[i]);
            i += 1;
        }
        proof {
            if retriever@.finished() {
                lemma_finished_is_final(
                    retriever@,
                    stream@.subrange(i as int, stream@.len() as int),
                );
            }
        }
        retriever
    }

    /// Takes one reply of the connection and returns the requests to issue
    /// next, in order: none once the retrieval has finished.
    pub fn step(&mut self, reply: &Reply) -> (effects: Vec<Effect>)
        ensures
            final(self)@ == old(self)@.on(*reply).next,
            effects@ == old(self)@.on(*reply).effects,
            old(self)@.consistent() ==> final(self)@.consistent() && asks_for(
                effects@,
                final(self)@.transfer.awaiting,
            ),
    {
        if self.is_finished() {
            return Vec::new();
        }
        let ctx = self.transfer.context();
        match self.transfer.step(reply) {
            Err(e) => {
                self.failure = Some(e);
                Vec::new()
            },
            Ok(effects) => {
                if self.transfer.state() == TransferState::BadTarget {
                    if self.remaining.len() > 0 {
                        self.remaining.remove(0);
                    }
                    if self.remaining.len() == 0 {
                        self.transfer = Transfer::new(ctx);
                        self.failure = Some(RetrievalError::FormatNegotiationFailed);
                        Vec::new()
                    } else {
                        let target: TargetFormat = self.remaining[0];
                        self.transfer = Transfer::new(ctx);
                        self.transfer.start(target)
                    }
                } else {
                    effects
                }
            },
        }
    }

    /// Ends the retrieval and gives its result: the payload, the failure, or
    /// `Timeout` if it is given up while it waits for a reply.
    pub fn finish(self) -> (r: Result<Vec<u8>, RetrievalError>)
        ensures
            bytes_view(r) == self@.outcome(),
    {
        match self.failure {
            Some(e) => Err(e),
            None => {
                if self.transfer.state() == TransferState::Idle {
                    Ok(self.transfer.into_bytes())
                } else {
                    Err(RetrievalError::Timeout)
                }
            },
        }
    }

    /// Ends the retrieval and gives its result as text, decoded as UTF-8
    /// with the replacement character in place of each invalid sequence.
    pub fn finish_text(self) -> (r: Result<String, RetrievalError>)
        ensures
            match r {
                Ok(text) => self@.outcome() matches Ok(bytes) && text@ == utf8_lossy(bytes) && (
                valid_utf8(bytes) ==> text@ == decode_utf8(bytes)),
                Err(e) => self@.outcome() == Err::<Seq<u8>, RetrievalError>(e),
            },
    {
        match self.finish() {
            Ok(bytes) => Ok(decode_lossy(bytes.as_slice())),
            Err(e) => Err(e),
        }
    }
}

/// Retrieves the selection from a recorded exchange: tries `formats` in
/// order, takes the replies in `stream` one by one in place of a live
/// connection, and returns the payload or the failure.
///
/// Replies behind the one that ends the retrieval are not looked at. A
/// stream that ends before the retrieval does gives `Timeout`.
pub fn fetch(ctx: &ClipboardContext, formats: Vec<TargetFormat>, stream: &[Reply]) -> (r: Result<
    Vec<u8>,
    RetrievalError,
>)
    ensures
        bytes_view(r) == fetch_model(*ctx, formats@, stream@),
{
    SelectionRetriever::replay(*ctx, formats, stream).finish()
}

impl ClipboardContext {
    /// Begins a retrieval of this context's selection that tries UTF-8 text
    /// and then legacy plain text.
    pub fn retriever(&self) -> (r: (SelectionRetriever, Vec<Effect>))
        ensures
            r.0@ == RetrieverModel::begin(*self, self.spec_preferred_formats()).next,
            r.1@ == RetrieverModel::begin(*self, self.spec_preferred_formats()).effects,
            r.0@.consistent(),
            asks_for(r.1@, r.0@.transfer.awaiting),
    {
        SelectionRetriever::begin(*self, self.preferred_formats())
    }

    /// The selection's contents as text, from a recorded exchange.
    ///
    /// Tries UTF-8 text and then legacy plain text, takes the replies in
    /// `stream` in place of a live connection, and decodes the payload as
    /// UTF-8 with the replacement character in place of each invalid
    /// sequence. Decoding never fails.
    pub fn get_contents(&self, stream: &[Reply]) -> (r: Result<String, RetrievalError>)
        ensures
            match r {
                Ok(text) => fetch_model(*self, self.spec_preferred_formats(), stream@) matches Ok(
                    bytes,
                ) && text@ == utf8_lossy(bytes) && (valid_utf8(bytes) ==> text@ == decode_utf8(
                    bytes,
                )),
                Err(e) => fetch_model(*self, self.spec_preferred_formats(), stream@) == Err::<
                    Seq<u8>,
                    RetrievalError,
                >(e),
            },
    {
        SelectionRetriever::replay(*self, self.preferred_formats(), stream).finish_text()
    }
}

} // verus!
