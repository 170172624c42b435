//! The staged pipeline's decision logic: the per-stage state machine, the
//! bounded-channel discipline as a verified model, and the start-up reads of
//! the channel capacity and the per-stage worker ceilings. The concurrent
//! runtime that carries these decisions out lives outside the library.

use vstd::prelude::*;

use crate::config::{spec_missing_msg, spec_resolve, ConfigTable};
use crate::error::{Error, INVALID_INDEX, INVALID_PARAM, INVALID_TYPE, IO_INVALID_DATA};
use crate::event::Event;
use crate::value::{spec_i32_of, spec_invalid_msg};

verus! {

/// The lifecycle of one pipeline stage.
#[derive(Copy, Clone, Debug, PartialEq, Eq, Structural)]
pub enum StageState {
    Configured,
    Running,
    Draining,
    Failed,
    Stopped,
}

/// What happens to a stage: it starts, begins draining its input, fails, or
/// finishes its drain or failure handling.
#[derive(Copy, Clone, Debug, PartialEq, Eq, Structural)]
pub enum StageEvent {
    Start,
    BeginDrain,
    Fail,
    Finish,
}

/// The allowed transitions of a stage: Configured starts Running; a Running
/// stage drains or fails; a Draining or Failed stage finishes Stopped.
/// Anything else is refused.
pub open spec fn spec_stage_step(s: StageState, ev: StageEvent) -> Option<StageState> {
    match (s, ev) {
        (StageState::Configured, StageEvent::Start) => Some(StageState::Running),
        (StageState::Running, StageEvent::BeginDrain) => Some(StageState::Draining),
        (StageState::Running, StageEvent::Fail) => Some(StageState::Failed),
        (StageState::Draining, StageEvent::Finish) => Some(StageState::Stopped),
        (StageState::Failed, StageEvent::Finish) => Some(StageState::Stopped),
        _ => None,
    }
}

/// Steps a stage's lifecycle; a transition outside the state machine is
/// refused and the caller keeps the old state.
pub fn stage_step(s: StageState, ev: StageEvent) -> (r: Option<StageState>)
    ensures
        r == spec_stage_step(s, ev),
{
    match (s, ev) {
        (StageState::Configured, StageEvent::Start) => Some(StageState::Running),
        (StageState::Running, StageEvent::BeginDrain) => Some(StageState::Draining),
        (StageState::Running, StageEvent::Fail) => Some(StageState::Failed),
        (StageState::Draining, StageEvent::Finish) => Some(StageState::Stopped),
        (StageState::Failed, StageEvent::Finish) => Some(StageState::Stopped),
        _ => None,
    }
}

/// What a send does: the event enters the queue, or comes back because the
/// channel is full and the sender must suspend.
pub enum SendOutcome {
    Sent,
    Suspend(Event),
}

/// What a receive does: the oldest event leaves the queue, or the receiver
/// must wait, or every producer is gone and the stream has ended.
pub enum RecvOutcome {
    Received(Event),
    Pending,
    Closed,
}

/// The bounded channel between two stages, as the library models it: a
/// queue of at most `capacity` events and a count of open producer handles.
/// The model pins the discipline — order kept, backpressure on a full
/// queue, end-of-stream exactly when every producer closed and the queue
/// drained — that the runtime channel carries out.
pub struct ChannelModel {
    pub queue: Vec<Event>,
    pub capacity: usize,
    pub producers: usize,
}

impl ChannelModel {
    /// The queue never outgrows the capacity.
    pub open spec fn wf(&self) -> bool {
        self.queue@.len() <= self.capacity
    }

    pub fn new(capacity: usize, producers: usize) -> (c: ChannelModel)
        requires
            capacity >= 1,
        ensures
            c.queue@.len() == 0,
            c.capacity == capacity,
            c.producers == producers,
            c.wf(),
    {
        ChannelModel { queue: Vec::new(), capacity, producers }
    }

    /// A send appends to the queue when there is room; on a full queue the
    /// event comes back unchanged and the sender suspends — backpressure,
    /// never a drop.
    pub fn send(&mut self, e: Event) -> (r: SendOutcome)
        requires
            old(self).wf(),
        ensures
            final (self).wf(),
            final (self).capacity == old(self).capacity,
            final (self).producers == old(self).producers,
            old(self).queue@.len() < old(self).capacity ==> (r matches SendOutcome::Sent
                && final (self).queue@ == old(self).queue@.push(e)),
            old(self).queue@.len() >= old(self).capacity ==> (r matches SendOutcome::Suspend(e2)
                && e2 == e && final (self).queue@ == old(self).queue@),
    {
        if self.queue.len() < self.capacity {
            self.queue.push(e);
            SendOutcome::Sent
        } else {
            SendOutcome::Suspend(e)
        }
    }

    /// A receive takes the oldest event; an empty queue makes the receiver
    /// wait while a producer is open, and ends the stream once none is.
    pub fn recv(&mut self) -> (r: RecvOutcome)
        requires
            old(self).wf(),
        ensures
            final (self).wf(),
            final (self).capacity == old(self).capacity,
            final (self).producers == old(self).producers,
            old(self).queue@.len() > 0 ==> (r matches RecvOutcome::Received(e)
                && e == old(self).queue@[0] && final (self).queue@ == old(
                self,
            ).queue@.drop_first()),
            old(self).queue@.len() == 0 && old(self).producers > 0 ==> (r
                matches RecvOutcome::Pending && final (self).queue@ == old(self).queue@),
            old(self).queue@.len() == 0 && old(self).producers == 0 ==> (r
                matches RecvOutcome::Closed && final (self).queue@ == old(self).queue@),
    {
        if self.queue.len() > 0 {
            let e = self.queue.remove(0);
            proof {
                assert(self.queue@ =~= old(self).queue@.drop_first());
            }
            RecvOutcome::Received(e)
        } else if self.producers > 0 {
            RecvOutcome::Pending
        } else {
            RecvOutcome::Closed
        }
    }

    /// A producer hands its handle back; the last close is the shutdown
    /// signal.
    pub fn close_producer(&mut self)
        requires
            old(self).wf(),
            old(self).producers > 0,
        ensures
            final (self).wf(),
            final (self).capacity == old(self).capacity,
            final (self).queue@ == old(self).queue@,
            final (self).producers == old(self).producers - 1,
    {
        self.producers = self.producers - 1;
    }

    /// Once every producer has closed, the consumer drains exactly the
    /// buffered events, in the order they were sent, and then observes
    /// end-of-stream: the loop exits at that point and not before.
    pub fn drain(&mut self) -> (r: Vec<Event>)
        requires
            old(self).wf(),
            old(self).producers == 0,
        ensures
            final (self).wf(),
            r@ == old(self).queue@,
            final (self).queue@.len() == 0,
            final (self).capacity == old(self).capacity,
            final (self).producers == 0,
    {
        let mut out: Vec<Event> = Vec::new();
        loop
            invariant
                self.wf(),
                self.producers == 0,
                self.capacity == old(self).capacity,
                out@ + self.queue@ == old(self).queue@,
            decreases self.queue@.len(),
        {
            match self.recv() {
                RecvOutcome::Received(e) => {
                    out.push(e);
                    proof {
                        assert(out@ + self.queue@ =~= old(self).queue@);
                    }
                },
                RecvOutcome::Pending => {
                    proof {
                        assert(false);
                    }
                },
                RecvOutcome::Closed => {
                    proof {
                        assert(out@ =~= old(self).queue@);
                    }
                    return out;
                },
            }
        }
    }
}

/// A decoder: a pure function from a raw payload to an event. A failure is
/// an invalid-data error; the stage drops exactly the offending message.
pub trait Decoder {
    fn decode(&self, bytes: &Vec<u8>) -> (r: Result<Event, Error>)
        ensures
            r matches Err(e) ==> e.spec_code() == IO_INVALID_DATA,
    ;
}

/// A processor: transforms an event into an event, or filters it out by
/// producing none.
pub trait Processor {
    fn process(&self, e: Event) -> Result<Option<Event>, Error>;
}

/// The decoder that wraps a raw payload unparsed into a one-field event.
pub struct RawDecoder {}

impl Decoder for RawDecoder {
    fn decode(&self, bytes: &Vec<u8>) -> (r: Result<Event, Error>) {
        let mut payload: Vec<u8> = Vec::new();
        let n = bytes.len();
        for i in 0..n
            invariant
                n == bytes@.len(),
                payload@ == bytes@.take(i as int),
        {
            payload.push(bytes[i]);
            proof {
                assert(payload@ =~= bytes@.take(i + 1));
            }
        }
        let mut event = Event::new();
        event.insert("payload", crate::value::Value::Bytes(crate::value::Bytes(payload)));
        Ok(event)
    }
}

/// The processor that hands every event on unchanged.
pub struct IdentityProcessor {}

impl Processor for IdentityProcessor {
    fn process(&self, e: Event) -> Result<Option<Event>, Error> {
        Ok(Some(e))
    }
}

/// Reads the channel capacity for the pipeline from the `buffer_size` key.
/// A missing key, a non-integer leaf and a capacity below one are each
/// fatal at start-up: the pipeline must not start on them.
pub fn buffer_size_of(config: &ConfigTable) -> (r: Result<usize, Error>)
    ensures
        match spec_resolve(*config, "buffer_size"@) {
            Some(vv) => match spec_i32_of(vv) {
                Some(x) => if x >= 1 {
                    r == Ok::<usize, Error>(x as usize)
                } else {
                    r matches Err(e) && e.spec_code() == INVALID_PARAM && e.spec_msg()
                        == "buffer_size must be at least 1"@
                },
                None => r matches Err(e) && e.spec_code() == INVALID_TYPE && e.spec_msg()
                    == spec_invalid_msg("i32"@, vv),
            },
            None => r matches Err(e) && e.spec_code() == INVALID_INDEX && e.spec_msg()
                == spec_missing_msg("buffer_size"@),
        },
{
    let size = config.get_i32("buffer_size")?;
    if size < 1 {
        return Err(Error::invalid_param("buffer_size must be at least 1"));
    }
    Ok(size as usize)
}

/// Reads one stage's worker ceiling from its `<stage>.max_thread` key; the
/// ceiling is fixed for the stage's lifetime. The same three failures as
/// for the capacity are fatal at start-up.
pub fn max_thread_of(config: &ConfigTable, key: &str) -> (r: Result<usize, Error>)
    ensures
        match spec_resolve(*config, key@) {
            Some(vv) => match spec_i32_of(vv) {
                Some(x) => if x >= 1 {
                    r == Ok::<usize, Error>(x as usize)
                } else {
                    r matches Err(e) && e.spec_code() == INVALID_PARAM && e.spec_msg()
                        == "max_thread must be at least 1"@
                },
                None => r matches Err(e) && e.spec_code() == INVALID_TYPE && e.spec_msg()
                    == spec_invalid_msg("i32"@, vv),
            },
            None => r matches Err(e) && e.spec_code() == INVALID_INDEX && e.spec_msg()
                == spec_missing_msg(key@),
        },
{
    let count = config.get_i32(key)?;
    if count < 1 {
        return Err(Error::invalid_param("max_thread must be at least 1"));
    }
    Ok(count as usize)
}

} // verus!
