//! Decision logic of the event-driven relay between the pty master and the
//! controlling terminal.
//!
//! The surrounding binary owns the descriptors and the readiness poll; this
//! module owns every decision the loop makes. For each event the poll
//! reports, the binary asks [`Relay::classify`] what to do, performs the
//! read or write it is directed to, and feeds the outcome back through the
//! `absorb_*` methods. The [`Relay`] tracks, in ghost state, every byte it
//! has directed to the terminal's output, to the capture file, and to the
//! pty master, so byte fidelity and the termination conditions are stated
//! and proved over those streams.

use crate::error::SrError;
use vstd::prelude::*;

verus! {

/// The errno with which a write to the pty master fails once the slave
/// side is gone (EIO). This failure is a clean termination signal, not a
/// fatal error.
pub const SLAVE_GONE_ERRNO: i32 = 5;

/// The logical role of a registered descriptor.
#[derive(Clone, Copy, Debug, PartialEq, Eq, Structural)]
pub enum Endpoint {
    /// The pty master descriptor.
    Master,
    /// The controlling terminal's input descriptor.
    StdinTerminal,
}

/// One readiness event, as the polling primitive reported it.
#[derive(Clone, Copy, Debug, PartialEq, Eq, Structural)]
pub struct PollEvent {
    /// Which registered descriptor the event is about.
    pub endpoint: Endpoint,
    /// The descriptor has pending input.
    pub readable: bool,
    /// The peer closed or the descriptor reported an error condition.
    pub closed_or_error: bool,
}

/// What the loop must do with one event.
#[derive(Clone, Copy, Debug, PartialEq, Eq, Structural)]
pub enum Directive {
    /// Mark the loop for termination; keep processing the batch.
    MarkEnd,
    /// Read from the pty master, up to the scratch buffer's capacity.
    ReadMaster,
    /// Read from the terminal's input, up to the scratch buffer's capacity.
    ReadStdin,
    /// Nothing to do for this event.
    Skip,
}

/// The outcome of one read the loop was directed to perform.
#[derive(Debug)]
pub enum ReadOutcome {
    /// Zero bytes were read: the peer has no more output.
    Eof,
    /// The bytes that were read.
    Data(Vec<u8>),
    /// The read itself failed with this errno.
    Failed(i32),
}

/// The relay's abstract state: the termination flag and the three byte
/// streams the loop has produced so far.
#[verifier::ext_equal]
pub struct RelayModel {
    /// A termination condition has been observed.
    pub done: bool,
    /// Every byte directed to the terminal's output descriptor.
    pub terminal_out: Seq<u8>,
    /// Every byte directed to the capture file (footer excluded; the
    /// footer is appended after the loop ends).
    pub capture: Seq<u8>,
    /// Every byte directed to the pty master.
    pub master_in: Seq<u8>,
}

/// One abstract step of the relay loop.
pub enum RelayStep {
    /// An event reported the peer closed or errored.
    ClosedOrError,
    /// The pty master returned end of stream: the child exited.
    MasterEof,
    /// The pty master produced these bytes; they go to the terminal's
    /// output and to the capture file, in that order.
    MasterBytes(Seq<u8>),
    /// The terminal's input returned end of stream: the controlling
    /// input closed.
    StdinEof,
    /// The terminal's input produced these bytes; they go to the pty
    /// master.
    StdinBytes(Seq<u8>),
    /// A read failed with this errno: fatal.
    ReadFailed(i32),
    /// A full write to the pty master completed.
    MasterWriteDone,
    /// A write to the pty master found the slave side gone: clean
    /// termination.
    SlaveGone,
    /// A write to the pty master failed with this errno: fatal.
    MasterWriteRejected(i32),
    /// A write to the terminal's output or the capture file failed with
    /// this errno: fatal.
    OutputWriteFailed(i32),
}

/// The relay's initial state: not done, all streams empty.
pub open spec fn init_model() -> RelayModel {
    RelayModel {
        done: false,
        terminal_out: Seq::<u8>::empty(),
        capture: Seq::<u8>::empty(),
        master_in: Seq::<u8>::empty(),
    }
}

/// The effect of one abstract step on the relay's state.
pub open spec fn step(m: RelayModel, s: RelayStep) -> RelayModel {
    match s {
        RelayStep::ClosedOrError => RelayModel { done: true, ..m },
        RelayStep::MasterEof => RelayModel { done: true, ..m },
        RelayStep::MasterBytes(b) => RelayModel {
            terminal_out: m.terminal_out + b,
            capture: m.capture + b,
            ..m
        },
        RelayStep::StdinEof => RelayModel { done: true, ..m },
        RelayStep::StdinBytes(b) => RelayModel { master_in: m.master_in + b, ..m },
        RelayStep::ReadFailed(_) => RelayModel { done: true, ..m },
        RelayStep::MasterWriteDone => m,
        RelayStep::SlaveGone => RelayModel { done: true, ..m },
        RelayStep::MasterWriteRejected(_) => RelayModel { done: true, ..m },
        RelayStep::OutputWriteFailed(_) => RelayModel { done: true, ..m },
    }
}

/// The effect of a whole sequence of abstract steps, first to last.
pub open spec fn run_steps(m: RelayModel, ss: Seq<RelayStep>) -> RelayModel
    decreases ss.len(),
{
    if ss.len() == 0 {
        m
    } else {
        run_steps(step(m, ss[0]), ss.drop_first())
    }
}

/// Byte fidelity: if the bytes directed to the capture file so far are
/// exactly the bytes directed to the terminal's output, then after any
/// sequence of steps whatever they still are. In particular, starting from
/// the initial state, the capture file's body is byte-for-byte what the
/// terminal displayed.
pub proof fn lemma_byte_fidelity(m: RelayModel, ss: Seq<RelayStep>)
    requires
        m.capture == m.terminal_out,
    ensures
        run_steps(m, ss).capture == run_steps(m, ss).terminal_out,
    decreases ss.len(),
{
    if ss.len() > 0 {
        lemma_byte_fidelity(step(m, ss[0]), ss.drop_first());
    }
}

/// Termination symmetry: end of stream on the pty master and end of stream
/// on the controlling input each terminate the loop by itself, without
/// requiring the other endpoint to close.
pub proof fn lemma_termination_symmetry(m: RelayModel)
    ensures
        step(m, RelayStep::MasterEof).done,
        step(m, RelayStep::StdinEof).done,
{
}

/// Once a termination condition has been observed, no later step revokes
/// it: the loop ends exactly once.
pub proof fn lemma_done_is_stable(m: RelayModel, ss: Seq<RelayStep>)
    requires
        m.done,
    ensures
        run_steps(m, ss).done,
    decreases ss.len(),
{
    if ss.len() > 0 {
        lemma_done_is_stable(step(m, ss[0]), ss.drop_first());
    }
}

/// What the loop must do with one event: a closed or errored peer marks
/// the loop for termination; otherwise a readable descriptor is read
/// according to its role.
pub open spec fn directive_for(ev: PollEvent) -> Directive {
    if ev.closed_or_error {
        Directive::MarkEnd
    } else if ev.readable && ev.endpoint is Master {
        Directive::ReadMaster
    } else if ev.readable && ev.endpoint is StdinTerminal {
        Directive::ReadStdin
    } else {
        Directive::Skip
    }
}

/// The relay loop's concrete state. The ghost fields carry the byte
/// streams of [`RelayModel`]; the `done` flag is the loop's termination
/// mark.
pub struct Relay {
    /// A termination condition has been observed.
    pub done: bool,
    /// Ghost: every byte directed to the terminal's output descriptor.
    pub terminal_out: Ghost<Seq<u8>>,
    /// Ghost: every byte directed to the capture file.
    pub capture: Ghost<Seq<u8>>,
    /// Ghost: every byte directed to the pty master.
    pub master_in: Ghost<Seq<u8>>,
}

impl Relay {
    /// The abstract state this relay is in.
    pub open spec fn model(self) -> RelayModel {
        RelayModel {
            done: self.done,
            terminal_out: self.terminal_out@,
            capture: self.capture@,
            master_in: self.master_in@,
        }
    }

    /// A fresh relay: no termination condition, no bytes relayed.
    pub fn new() -> (r: Relay)
        ensures
            r.model() == init_model(),
    {
        Relay {
            done: false,
            terminal_out: Ghost(Seq::<u8>::empty()),
            capture: Ghost(Seq::<u8>::empty()),
            master_in: Ghost(Seq::<u8>::empty()),
        }
    }

    /// Decide what to do with one reported event.
    pub fn classify(&self, ev: &PollEvent) -> (d: Directive)
        ensures
            d == directive_for(*ev),
    {
        if ev.closed_or_error {
            Directive::MarkEnd
        } else if ev.readable && matches!(ev.endpoint, Endpoint::Master) {
            Directive::ReadMaster
        } else if ev.readable && matches!(ev.endpoint, Endpoint::StdinTerminal) {
            Directive::ReadStdin
        } else {
            Directive::Skip
        }
    }

    /// An event reported the peer closed or errored: mark the loop for
    /// termination. Other events of the same batch are still processed.
    pub fn mark_end(&mut self)
        ensures
            final(self).model() == step(old(self).model(), RelayStep::ClosedOrError),
    {
        self.done = true;
    }

    /// Absorb the outcome of a read from the pty master. Bytes returned
    /// must be written, in full, to the terminal's output and then to the
    /// capture file; end of stream terminates the loop; a failed read is
    /// fatal.
    pub fn absorb_master_read(&mut self, outcome: ReadOutcome) -> (r: Result<Option<Vec<u8>>, SrError>)
        ensures
            (outcome is Eof ==> (r matches Ok(o) && o is None
                && final(self).model() == step(old(self).model(), RelayStep::MasterEof))),
            (outcome matches ReadOutcome::Data(b) ==> (r matches Ok(o) && o matches Some(ob)
                && ob@ == b@
                && final(self).model() == step(old(self).model(), RelayStep::MasterBytes(b@)))),
            (outcome matches ReadOutcome::Failed(e) ==> (r == Err::<Option<Vec<u8>>, SrError>(SrError::RelayIO(e))
                && final(self).model() == step(old(self).model(), RelayStep::ReadFailed(e)))),
    {
        match outcome {
            ReadOutcome::Eof => {
                self.done = true;
                Ok(None)
            },
            ReadOutcome::Data(b) => {
                self.terminal_out = Ghost(self.terminal_out@ + b@);
                self.capture = Ghost(self.capture@ + b@);
                Ok(Some(b))
            },
            ReadOutcome::Failed(e) => {
                self.done = true;
                Err(SrError::RelayIO(e))
            },
        }
    }

    /// Absorb the outcome of a read from the terminal's input. Bytes
    /// returned must be written, in full, to the pty master; end of stream
    /// terminates the loop; a failed read is fatal.
    pub fn absorb_stdin_read(&mut self, outcome: ReadOutcome) -> (r: Result<Option<Vec<u8>>, SrError>)
        ensures
            (outcome is Eof ==> (r matches Ok(o) && o is None
                && final(self).model() == step(old(self).model(), RelayStep::StdinEof))),
            (outcome matches ReadOutcome::Data(b) ==> (r matches Ok(o) && o matches Some(ob)
                && ob@ == b@
                && final(self).model() == step(old(self).model(), RelayStep::StdinBytes(b@)))),
            (outcome matches ReadOutcome::Failed(e) ==> (r == Err::<Option<Vec<u8>>, SrError>(SrError::RelayIO(e))
                && final(self).model() == step(old(self).model(), RelayStep::ReadFailed(e)))),
    {
        match outcome {
            ReadOutcome::Eof => {
                self.done = true;
                Ok(None)
            },
            ReadOutcome::Data(b) => {
                self.master_in = Ghost(self.master_in@ + b@);
                Ok(Some(b))
            },
            ReadOutcome::Failed(e) => {
                self.done = true;
                Err(SrError::RelayIO(e))
            },
        }
    }

    /// Absorb the result of a full write to the pty master. Success
    /// continues the loop; the specific slave-gone errno is a clean
    /// termination signal; any other failure is fatal and aborts the
    /// session.
    pub fn absorb_master_write(&mut self, outcome: Result<(), i32>) -> (r: Result<(), SrError>)
        ensures
            (outcome is Ok ==> (r is Ok
                && final(self).model() == step(old(self).model(), RelayStep::MasterWriteDone))),
            (outcome matches Err(e) ==> ((e == SLAVE_GONE_ERRNO ==> (r is Ok
                && final(self).model() == step(old(self).model(), RelayStep::SlaveGone)))
                && (e != SLAVE_GONE_ERRNO ==> (r == Err::<(), SrError>(SrError::RelayIO(e))
                    && final(self).model() == step(old(self).model(), RelayStep::MasterWriteRejected(e)))))),
    {
        match outcome {
            Ok(()) => Ok(()),
            Err(e) => {
                self.done = true;
                if e == SLAVE_GONE_ERRNO {
                    Ok(())
                } else {
                    Err(SrError::RelayIO(e))
                }
            },
        }
    }

    /// Absorb the result of a full write to the terminal's output or the
    /// capture file. Any failure there is fatal.
    pub fn absorb_output_write(&mut self, outcome: Result<(), i32>) -> (r: Result<(), SrError>)
        ensures
            (outcome is Ok ==> (r is Ok && *final(self) == *old(self))),
            (outcome matches Err(e) ==> (r == Err::<(), SrError>(SrError::RelayIO(e))
                && final(self).model() == step(old(self).model(), RelayStep::OutputWriteFailed(e)))),
    {
        match outcome {
            Ok(()) => Ok(()),
            Err(e) => {
                self.done = true;
                Err(SrError::RelayIO(e))
            },
        }
    }

    /// Has a termination condition been observed? The loop repeats until
    /// this is true.
    pub fn should_stop(&self) -> (b: bool)
        ensures
            b == self.done,
    {
        self.done
    }
}

} // verus!
