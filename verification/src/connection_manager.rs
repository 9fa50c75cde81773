//! One managed connection: the record that owns a transport once it is
//! registered, and the decisions of its read path, its write path and its
//! teardown.
//!
//! The record is driven one call at a time. The program around it runs the
//! read path as a loop of `read_step` calls on a thread of its own, and puts
//! the record behind a lock so that writes, steps and stops take turns.

use vstd::prelude::*;
use crate::connections::connection::Connection;
use crate::connections::errors::ConnectionError;

verus! {

/// How many bytes one read of the read path can bring.
pub const READ_BUFFER_SIZE: usize = 1024;

/// Why a read path ended.
#[derive(Debug)]
pub enum StopReason {
    /// The cancellation signal was raised.
    Cancelled,
    /// The path had ended before this step.
    Ended,
    /// The peer closed the stream in an orderly way.
    PeerClosed,
    /// The transport claimed to have read more bytes than the buffer holds.
    Overrun,
    /// The transport failed in a way that leaves nothing to read.
    Fault(ConnectionError),
}

/// What one step of a read path came to.
#[derive(Debug)]
pub enum ReadStep {
    /// These bytes arrived, in this order: hand each to the consumer.
    Deliver(Vec<u8>),
    /// This attempt gave nothing usable, the stream is still there: step again.
    Retry(ConnectionError),
    /// The path has ended and the transport is disconnected: step no more.
    Stop(StopReason),
}

/// A `ReadStep` as plain values.
pub enum ReadStepView {
    Deliver(Seq<u8>),
    Retry(ConnectionError),
    Stop(StopReason),
}

impl View for ReadStep {
    type V = ReadStepView;

    open spec fn view(&self) -> ReadStepView {
        match *self {
            ReadStep::Deliver(bytes) => ReadStepView::Deliver(bytes@),
            ReadStep::Retry(error) => ReadStepView::Retry(error),
            ReadStep::Stop(reason) => ReadStepView::Stop(reason),
        }
    }
}

/// What registering a transport comes to, given how its `connect` ended. A
/// transport that was handed over connected is taken as it is; any other
/// failure to connect is the failure to register.
pub open spec fn registration(connect: Result<(), ConnectionError>) -> Result<(), ConnectionError> {
    match connect {
        Ok(_) => Ok(()),
        Err(ConnectionError::AlreadyConnected) => Ok(()),
        Err(error) => Err(error),
    }
}

/// What a read comes to, given how the transport's `read` ended and what
/// `buffer` holds after it.
///
/// Bytes are delivered as they lie in the buffer. No bytes, or `PeerClosed`,
/// is the orderly end of the stream. A transient error asks for another
/// attempt. Every other error ends the path.
pub open spec fn settled(read: Result<usize, ConnectionError>, buffer: Seq<u8>) -> ReadStepView {
    match read {
        Ok(count) => if count == 0 {
            ReadStepView::Stop(StopReason::PeerClosed)
        } else if count <= buffer.len() {
            ReadStepView::Deliver(buffer.subrange(0, count as int))
        } else {
            ReadStepView::Stop(StopReason::Overrun)
        },
        Err(ConnectionError::PeerClosed) => ReadStepView::Stop(StopReason::PeerClosed),
        Err(error) => if error.transient() {
            ReadStepView::Retry(error)
        } else {
            ReadStepView::Stop(StopReason::Fault(error))
        },
    }
}

/// Decides whether a transport whose `connect` ended as `connect` is
/// registered.
pub fn settle_registration(connect: Result<(), ConnectionError>) -> (outcome: Result<(), ConnectionError>)
    ensures
        outcome == registration(connect),
{
    match connect {
        Ok(_) => Ok(()),
        Err(ConnectionError::AlreadyConnected) => Ok(()),
        Err(error) => Err(error),
    }
}

/// Decides what a read comes to, given how the transport's `read` ended and
/// the buffer it read into.
pub fn settle_read(read: Result<usize, ConnectionError>, buffer: &[u8]) -> (step: ReadStep)
    ensures
        step@ == settled(read, buffer@),
{
    match read {
        Ok(count) => {
            if count == 0 {
                ReadStep::Stop(StopReason::PeerClosed)
            } else if count <= buffer.len() {
                ReadStep::Deliver(vstd::slice::slice_to_vec(vstd::slice::slice_subrange(buffer, 0, count)))
            } else {
                ReadStep::Stop(StopReason::Overrun)
            }
        },
        Err(ConnectionError::PeerClosed) => ReadStep::Stop(StopReason::PeerClosed),
        Err(error) => {
            if error.is_transient() {
                ReadStep::Retry(error)
            } else {
                ReadStep::Stop(StopReason::Fault(error))
            }
        },
    }
}

/// Where a managed connection stands in its life.
#[derive(Debug, Clone, Copy, PartialEq, Eq, Structural)]
pub enum Phase {
    /// Registered: the read path runs and writes are taken.
    Running,
    /// The cancellation signal is raised; the read path has not ended yet.
    Cancelled,
    /// The read path has ended and the transport is disconnected.
    Stopped,
}

/// A registered transport with what its read path, its write path and its
/// teardown need to know of each other.
///
/// Whatever the calls made on it, a record disconnects its transport once:
/// when its read path ends or when it is stopped, whichever comes first.
pub struct ManagedConnection<C: Connection> {
    label: String,
    transport: C,
    phase: Phase,
    buffer: Vec<u8>,
    disconnects: Ghost<nat>,
}

impl<C: Connection> ManagedConnection<C> {
    /// What holds of every record between calls: its read buffer has its
    /// full size, it has disconnected its transport once if it is stopped and
    /// never otherwise, and the transport of a stopped record holds no live
    /// link.
    pub closed spec fn wf(&self) -> bool {
        &&& self.buffer@.len() == READ_BUFFER_SIZE
        &&& self.phase is Stopped ==> !self.transport.is_connected()
        &&& self.disconnects@ == if self.phase is Stopped {
            1nat
        } else {
            0nat
        }
    }

    /// A record disconnects its transport once at most, and has done so
    /// exactly if it is stopped; the transport of a stopped record holds no
    /// live link.
    pub proof fn lemma_disconnects_once(&self)
        requires
            self.wf(),
        ensures
            self.disconnects() == if self.phase() is Stopped {
                1nat
            } else {
                0nat
            },
            self.phase() is Stopped ==> !self.transport().is_connected(),
    {
    }

    /// The label the connection was registered under.
    pub closed spec fn label(&self) -> Seq<char> {
        self.label@
    }

    /// The transport, which the record owns.
    pub closed spec fn transport(&self) -> C {
        self.transport
    }

    /// Where the connection stands in its life.
    pub closed spec fn phase(&self) -> Phase {
        self.phase
    }

    /// How often the record has called `disconnect` on its transport.
    pub closed spec fn disconnects(&self) -> nat {
        self.disconnects@
    }

    /// Registers `transport` under `label`, taking it over from the caller.
    ///
    /// The transport's `connect` is called, once. What it returned decides, as
    /// `registration` says: on success, and on a transport that was handed
    /// over connected, the record holds the transport as that call left it;
    /// any other failure is returned as it came, and nothing is registered.
    pub fn register(label: String, transport: C) -> (outcome: Result<
        ManagedConnection<C>,
        ConnectionError,
    >)
        ensures
            transport.is_connected() ==> outcome is Ok,
            outcome matches Ok(record) ==> {
                &&& record.wf()
                &&& record.label() == label@
                &&& record.phase() == Phase::Running
                &&& record.disconnects() == 0
                &&& record.transport().is_connected()
            },
            outcome matches Err(error) ==> !(error is AlreadyConnected),
            exists|m: &mut C, connect: Result<(), ConnectionError>|
                {
                    &&& mut_ref_current(m) == transport
                    &&& #[trigger] call_ensures(C::connect, (m,), connect)
                    &&& match outcome {
                        Ok(record) => registration(connect) is Ok && record.transport()
                            == mut_ref_future(m),
                        Err(error) => registration(connect) == Err::<(), ConnectionError>(error),
                    }
                },
    {
        let mut transport = transport;
        let connect = transport.connect();
        match settle_registration(connect) {
            Ok(_) => Ok(
                ManagedConnection {
                    label,
                    transport,
                    phase: Phase::Running,
                    buffer: vec![0u8; READ_BUFFER_SIZE],
                    disconnects: Ghost(0),
                },
            ),
            Err(error) => Err(error),
        }
    }

    /// The label the connection was registered under.
    pub fn label_text(&self) -> (label: &str)
        ensures
            label@ == self.label(),
    {
        self.label.as_str()
    }

    /// Where the connection stands in its life.
    pub fn current_phase(&self) -> (phase: Phase)
        ensures
            phase == self.phase(),
    {
        self.phase
    }

    /// Whether the read path has ended and the transport is disconnected.
    pub fn is_stopped(&self) -> (stopped: bool)
        requires
            self.wf(),
        ensures
            stopped == (self.phase() is Stopped),
            stopped ==> !self.transport().is_connected(),
    {
        match self.phase {
            Phase::Stopped => true,
            _ => false,
        }
    }

    /// Raises the cancellation signal: the next step of the read path ends
    /// it. Does nothing on a connection that is cancelled or stopped already.
    pub fn cancel(&mut self)
        requires
            old(self).wf(),
        ensures
            final(self).wf(),
            final(self).phase() == match old(self).phase() {
                Phase::Running => Phase::Cancelled,
                phase => phase,
            },
            final(self).label() == old(self).label(),
            final(self).transport() == old(self).transport(),
            final(self).disconnects() == old(self).disconnects(),
    {
        match self.phase {
            Phase::Running => {
                self.phase = Phase::Cancelled;
            },
            _ => {},
        }
    }

    /// Writes `data` through to the transport: the transport's `write` is
    /// called once, with all of `data`, and what it returned is returned.
    ///
    /// Once the connection is cancelled or stopped the write is refused with
    /// `NotConnected`, and the transport is not touched.
    pub fn write_bytes(&mut self, data: &[u8]) -> (outcome: Result<usize, ConnectionError>)
        requires
            old(self).wf(),
        ensures
            final(self).wf(),
            !(old(self).phase() is Running) ==> {
                &&& outcome == Err::<usize, ConnectionError>(ConnectionError::NotConnected)
                &&& *final(self) == *old(self)
            },
            old(self).phase() is Running ==> exists|m: &mut C|
                {
                    &&& mut_ref_current(m) == old(self).transport()
                    &&& mut_ref_future(m) == final(self).transport()
                    &&& #[trigger] call_ensures(C::write, (m, data), outcome)
                },
            !old(self).transport().is_connected() ==> outcome == Err::<usize, ConnectionError>(
                ConnectionError::NotConnected,
            ),
            final(self).phase() == old(self).phase(),
            final(self).label() == old(self).label(),
            final(self).disconnects() == old(self).disconnects(),
    {
        match self.phase {
            Phase::Running => self.transport.write(data),
            _ => Err(ConnectionError::NotConnected),
        }
    }

    /// Ends the read path: calls the transport's `disconnect`, once, and
    /// marks the connection stopped.
    fn finish(&mut self) -> (outcome: Result<(), ConnectionError>)
        requires
            old(self).wf(),
            !(old(self).phase() is Stopped),
        ensures
            final(self).wf(),
            final(self).phase() == Phase::Stopped,
            final(self).label() == old(self).label(),
            final(self).disconnects() == old(self).disconnects() + 1,
            exists|m: &mut C|
                {
                    &&& mut_ref_current(m) == old(self).transport()
                    &&& mut_ref_future(m) == final(self).transport()
                    &&& #[trigger] call_ensures(C::disconnect, (m,), outcome)
                },
            !final(self).transport().is_connected(),
            !old(self).transport().is_connected() ==> outcome is Ok,
    {
        let outcome = self.transport.disconnect();
        self.phase = Phase::Stopped;
        self.disconnects = Ghost(1);
        outcome
    }

    /// One turn of the read path.
    ///
    /// On a stopped connection nothing happens. On a cancelled one the path
    /// ends: the transport's `disconnect` is called, once. On a running one
    /// the transport's `read` is called once, into the record's buffer, and
    /// the step is what `settled` makes of the result and the buffer; if that
    /// is `Stop`, `disconnect` is called, once, on the transport as the read
    /// left it, before the step returns. Whenever the step says anything
    /// else, the transport is as the read left it and the connection is still
    /// running.
    pub fn read_step(&mut self) -> (step: ReadStep)
        requires
            old(self).wf(),
        ensures
            final(self).wf(),
            old(self).phase() is Stopped ==> {
                &&& step@ == ReadStepView::Stop(StopReason::Ended)
                &&& *final(self) == *old(self)
            },
            old(self).phase() is Cancelled ==> {
                &&& step@ == ReadStepView::Stop(StopReason::Cancelled)
                &&& exists|m: &mut C, outcome: Result<(), ConnectionError>|
                    {
                        &&& mut_ref_current(m) == old(self).transport()
                        &&& mut_ref_future(m) == final(self).transport()
                        &&& #[trigger] call_ensures(C::disconnect, (m,), outcome)
                    }
            },
            old(self).phase() is Running ==> exists|
                m: &mut C,
                b: &mut [u8],
                read: Result<usize, ConnectionError>,
            |
                {
                    &&& mut_ref_current(m) == old(self).transport()
                    &&& final(b)@.len() == READ_BUFFER_SIZE
                    &&& #[trigger] call_ensures(C::read, (m, b), read)
                    &&& step@ == settled(read, final(b)@)
                    &&& if step@ is Stop {
                        exists|d: &mut C, outcome: Result<(), ConnectionError>|
                            {
                                &&& mut_ref_current(d) == mut_ref_future(m)
                                &&& mut_ref_future(d) == final(self).transport()
                                &&& #[trigger] call_ensures(C::disconnect, (d,), outcome)
                            }
                    } else {
                        final(self).transport() == mut_ref_future(m)
                    }
                },
            old(self).phase() is Running && !old(self).transport().is_connected() ==> step@
                == ReadStepView::Stop(StopReason::Fault(ConnectionError::NotConnected)),
            step@ is Stop <==> final(self).phase() is Stopped,
            !(step@ is Stop) ==> final(self).phase() is Running,
            step@ is Stop ==> !final(self).transport().is_connected(),
            step@ matches ReadStepView::Deliver(bytes) ==> 0 < bytes.len() <= READ_BUFFER_SIZE,
            step@ matches ReadStepView::Retry(error) ==> error.transient(),
            final(self).label() == old(self).label(),
            final(self).disconnects() == if final(self).phase() is Stopped {
                1nat
            } else {
                0nat
            },
    {
        match self.phase {
            Phase::Stopped => ReadStep::Stop(StopReason::Ended),
            Phase::Cancelled => {
                let _ = self.finish();
                ReadStep::Stop(StopReason::Cancelled)
            },
            Phase::Running => {
                let read = self.transport.read(self.buffer.as_mut_slice());
                let step = settle_read(read, self.buffer.as_slice());
                match step {
                    ReadStep::Stop(_) => {
                        let _ = self.finish();
                    },
                    _ => {},
                }
                step
            },
        }
    }

    /// Tears the connection down: raises the cancellation signal, ends the
    /// read path and disconnects the transport before it returns.
    ///
    /// On a connection that is stopped already this does nothing and
    /// succeeds. Otherwise the transport's `disconnect` is called, once, and
    /// its result is returned; the connection is stopped either way.
    pub fn stop(&mut self) -> (outcome: Result<(), ConnectionError>)
        requires
            old(self).wf(),
        ensures
            final(self).wf(),
            final(self).phase() is Stopped,
            !final(self).transport().is_connected(),
            final(self).disconnects() == 1,
            final(self).label() == old(self).label(),
            old(self).phase() is Stopped ==> {
                &&& outcome == Ok::<(), ConnectionError>(())
                &&& *final(self) == *old(self)
            },
            !(old(self).phase() is Stopped) ==> exists|m: &mut C|
                {
                    &&& mut_ref_current(m) == old(self).transport()
                    &&& mut_ref_future(m) == final(self).transport()
                    &&& #[trigger] call_ensures(C::disconnect, (m,), outcome)
                },
            !old(self).transport().is_connected() ==> outcome is Ok,
    {
        match self.phase {
            Phase::Stopped => Ok(()),
            _ => self.finish(),
        }
    }
}

} // verus!
