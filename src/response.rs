use vstd::prelude::*;

verus! {

/// One value that a handler yields: text, or a value of any other shape.
#[derive(Clone, Debug)]
pub enum HandlerValue {
    Text(String),
    Other,
}

/// The shape of what a handler returned for one request.
/// A stream's items are pulled one at a time by a `StreamWorker`.
#[derive(Clone, Debug)]
pub enum HandlerOutput {
    Value(HandlerValue),
    Stream,
    ExternalStream,
    Empty,
}

/// The handler returned a shape outside text and sequence of text.
#[derive(Clone, Debug, PartialEq, Eq)]
pub enum HandlerContractViolation {
    UnsupportedValue,
    UnsupportedStreamItem,
    ExternalStream,
    Empty,
}

/// How the response to a request is to be produced.
#[derive(Clone, Debug)]
pub enum ResponsePlan {
    /// A success response whose body is exactly this text.
    Direct(String),
    /// A success response whose body is read from a frame channel that a
    /// `StreamWorker` fills.
    Streamed,
}

/// Decides the response for what a handler returned.
pub fn plan_response(out: HandlerOutput) -> (r: Result<ResponsePlan, HandlerContractViolation>)
    ensures
        match out {
            HandlerOutput::Value(HandlerValue::Text(s)) => r matches Ok(ResponsePlan::Direct(b)) && b@ == s@,
            HandlerOutput::Value(HandlerValue::Other) => r == Err::<ResponsePlan, _>(HandlerContractViolation::UnsupportedValue),
            HandlerOutput::Stream => r matches Ok(ResponsePlan::Streamed),
            HandlerOutput::ExternalStream => r == Err::<ResponsePlan, _>(HandlerContractViolation::ExternalStream),
            HandlerOutput::Empty => r == Err::<ResponsePlan, _>(HandlerContractViolation::Empty),
        },
{
    match out {
        HandlerOutput::Value(HandlerValue::Text(s)) => Ok(ResponsePlan::Direct(s)),
        HandlerOutput::Value(HandlerValue::Other) => Err(HandlerContractViolation::UnsupportedValue),
        HandlerOutput::Stream => Ok(ResponsePlan::Streamed),
        HandlerOutput::ExternalStream => Err(HandlerContractViolation::ExternalStream),
        HandlerOutput::Empty => Err(HandlerContractViolation::Empty),
    }
}

/// What the stream's next pull gave.
#[derive(Clone, Debug)]
pub enum PullEvent {
    Item(HandlerValue),
    Exhausted,
}

/// What became of one attempt to put a frame on the channel.
#[derive(Clone, Copy, Debug, PartialEq, Eq)]
pub enum SendOutcome {
    Accepted,
    /// The channel is at capacity; the frame was not taken.
    Full,
    /// The consumer has dropped its end.
    ConsumerClosed,
}

/// What the worker does next.
#[derive(Clone, Debug)]
pub enum WorkerAction {
    /// Put this frame on the channel, waiting while it is full.
    Send(String),
    /// Pull the next item of the stream.
    Pull,
    /// The stream is done, or the consumer left: close the producer end, no error.
    Finish,
    /// The stream yielded a non-text item: end the body abruptly.
    Abort(HandlerContractViolation),
}

/// Concatenation of a sequence of chunks.
pub open spec fn concat(chunks: Seq<Seq<char>>) -> Seq<char>
    decreases chunks.len(),
{
    if chunks.len() == 0 {
        Seq::empty()
    } else {
        concat(chunks.drop_last()) + chunks.last()
    }
}

/// The producer side of a streamed response. It pulls items of the handler's
/// stream one at a time and hands each text item to the frame channel.
pub struct StreamWorker {
    pending: Option<String>,
    finished: bool,
    /// Text items pulled so far, in pull order.
    pulled: Ghost<Seq<Seq<char>>>,
    /// Frames the channel has accepted, in send order.
    delivered: Ghost<Seq<Seq<char>>>,
}

impl StreamWorker {
    pub closed spec fn pulled(&self) -> Seq<Seq<char>> {
        self.pulled@
    }

    pub closed spec fn delivered(&self) -> Seq<Seq<char>> {
        self.delivered@
    }

    /// Whether a frame is waiting to be accepted.
    pub closed spec fn has_pending(&self) -> bool {
        self.pending is Some
    }

    pub closed spec fn is_finished(&self) -> bool {
        self.finished
    }

    pub closed spec fn wf(&self) -> bool {
        &&& match self.pending {
            Some(s) => self.pulled@ == self.delivered@.push(s@),
            None => self.pulled@ == self.delivered@ || (self.finished && self.pulled@.len() > 0
                && self.pulled@.drop_last() == self.delivered@),
        }
        &&& (self.finished ==> self.pending is None)
    }

    pub fn new() -> (r: StreamWorker)
        ensures
            r.wf(),
            !r.is_finished(),
            !r.has_pending(),
            r.pulled() == Seq::<Seq<char>>::empty(),
            r.delivered() == Seq::<Seq<char>>::empty(),
    {
        StreamWorker { pending: None, finished: false, pulled: Ghost(Seq::empty()), delivered: Ghost(Seq::empty()) }
    }

    pub fn is_done(&self) -> (r: bool)
        ensures
            r == self.is_finished(),
    {
        self.finished
    }

    /// Takes what the stream's next pull gave.
    pub fn on_pull(&mut self, ev: PullEvent) -> (a: WorkerAction)
        requires
            old(self).wf(),
            !old(self).is_finished(),
            !old(self).has_pending(),
        ensures
            final(self).wf(),
            final(self).delivered() == old(self).delivered(),
            match ev {
                PullEvent::Item(HandlerValue::Text(s)) => {
                    &&& a matches WorkerAction::Send(f) && f@ == s@
                    &&& final(self).pulled() == old(self).pulled().push(s@)
                    &&& final(self).has_pending()
                    &&& !final(self).is_finished()
                },
                PullEvent::Item(HandlerValue::Other) => {
                    &&& a matches WorkerAction::Abort(HandlerContractViolation::UnsupportedStreamItem)
                    &&& final(self).pulled() == old(self).pulled()
                    &&& final(self).is_finished()
                },
                PullEvent::Exhausted => {
                    &&& a matches WorkerAction::Finish
                    &&& final(self).pulled() == old(self).pulled()
                    &&& final(self).delivered() == final(self).pulled()
                    &&& final(self).is_finished()
                },
            },
    {
        match ev {
            PullEvent::Item(HandlerValue::Text(s)) => {
                let frame = s.clone();
                proof {
                    self.pulled = Ghost(self.pulled@.push(s@));
                }
                self.pending = Some(s);
                WorkerAction::Send(frame)
            },
            PullEvent::Item(HandlerValue::Other) => {
                self.finished = true;
                WorkerAction::Abort(HandlerContractViolation::UnsupportedStreamItem)
            },
            PullEvent::Exhausted => {
                self.finished = true;
                WorkerAction::Finish
            },
        }
    }

    /// Takes the outcome of sending the pending frame.
    pub fn on_send(&mut self, outcome: SendOutcome) -> (a: WorkerAction)
        requires
            old(self).wf(),
            old(self).has_pending(),
        ensures
            final(self).wf(),
            final(self).pulled() == old(self).pulled(),
            match outcome {
                SendOutcome::Accepted => {
                    &&& a matches WorkerAction::Pull
                    &&& final(self).delivered() == old(self).pulled()
                    &&& !final(self).has_pending()
                    &&& !final(self).is_finished()
                },
                SendOutcome::Full => {
                    &&& a matches WorkerAction::Send(f) && old(self).pulled() == old(self).delivered().push(f@)
                    &&& final(self).delivered() == old(self).delivered()
                    &&& final(self).has_pending()
                    &&& !final(self).is_finished()
                },
                SendOutcome::ConsumerClosed => {
                    &&& a matches WorkerAction::Finish
                    &&& final(self).delivered() == old(self).delivered()
                    &&& final(self).is_finished()
                },
            },
    {
        match outcome {
            SendOutcome::Accepted => {
                proof {
                    self.delivered = Ghost(self.pulled@);
                }
                self.pending = None;
                WorkerAction::Pull
            },
            SendOutcome::Full => {
                let frame = match &self.pending {
                    Some(s) => s.clone(),
                    None => String::new(),
                };
                WorkerAction::Send(frame)
            },
            SendOutcome::ConsumerClosed => {
                assert(self.pulled@.drop_last() =~= self.delivered@);
                self.pending = None;
                self.finished = true;
                WorkerAction::Finish
            },
        }
    }
}

/// Frames reach the channel in the order the stream produced them, none lost
/// and none repeated: what the channel has accepted is the pulled text items
/// or all but the last of them, and once the stream ends cleanly the body is
/// the concatenation of every text item.
pub proof fn lemma_frames_in_order(w: StreamWorker)
    requires
        w.wf(),
    ensures
        w.delivered().len() <= w.pulled().len() <= w.delivered().len() + 1,
        w.delivered() == w.pulled().subrange(0, w.delivered().len() as int),
        !w.has_pending() && !w.is_finished() ==> concat(w.delivered()) == concat(w.pulled()),
{
    if w.pulled() != w.delivered() && w.pulled().len() > 0 {
        assert(w.pulled().drop_last() =~= w.pulled().subrange(0, w.pulled().len() - 1));
    }
    assert(w.delivered() =~= w.pulled().subrange(0, w.delivered().len() as int));
}

} // verus!
