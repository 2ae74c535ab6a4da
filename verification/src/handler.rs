use vstd::prelude::*;

use crate::message::Event;
use crate::message::Message;
use crate::message::failure_output;
use crate::message::false_line;
use crate::message::none_line;
use crate::message::success_output;
use crate::message::true_line;
use crate::message::unsupported_line;
use crate::message::version_line;
use crate::sink::SendWriter;
use crate::version::BareVersion;

verus! {

/// Builds the newline-terminated line for a version.
fn version_line_vec(v: &BareVersion) -> (r: Vec<u8>)
    ensures
        r@ == version_line(*v),
{
    let mut out: Vec<u8> = Vec::new();
    v.push_bytes(&mut out);
    out.push(10);
    assert(out@ =~= version_line(*v));
    out
}

/// Builds the line `none\n`.
fn none_line_vec() -> (r: Vec<u8>)
    ensures
        r@ == none_line(),
{
    let mut out: Vec<u8> = Vec::new();
    out.push(110);
    out.push(111);
    out.push(110);
    out.push(101);
    out.push(10);
    assert(out@ =~= none_line());
    out
}

/// Builds the line `unsupported\n`.
fn unsupported_line_vec() -> (r: Vec<u8>)
    ensures
        r@ == unsupported_line(),
{
    let mut out: Vec<u8> = Vec::new();
    out.push(117);
    out.push(110);
    out.push(115);
    out.push(117);
    out.push(112);
    out.push(112);
    out.push(111);
    out.push(114);
    out.push(116);
    out.push(101);
    out.push(100);
    out.push(10);
    assert(out@ =~= unsupported_line());
    out
}

/// Builds the line `true\n`.
fn true_line_vec() -> (r: Vec<u8>)
    ensures
        r@ == true_line(),
{
    let mut out: Vec<u8> = Vec::new();
    out.push(116);
    out.push(114);
    out.push(117);
    out.push(101);
    out.push(10);
    assert(out@ =~= true_line());
    out
}

/// Builds the line `false\n`.
fn false_line_vec() -> (r: Vec<u8>)
    ensures
        r@ == false_line(),
{
    let mut out: Vec<u8> = Vec::new();
    out.push(102);
    out.push(97);
    out.push(108);
    out.push(115);
    out.push(101);
    out.push(10);
    assert(out@ =~= false_line());
    out
}

/// An output handler which reports just minimal results: one line per final
/// result, on the success sink for affirmative outcomes and on the failure
/// sink for negative or unsupported ones.
///
/// It serves callers that parse the output by machine but want neither a full
/// structured schema nor the human-readable form. Non-final events are
/// discarded before either sink is touched, and no call ever writes to both
/// sinks.
pub struct MinimalOutputHandler<S: SendWriter, F: SendWriter> {
    pub success_writer: S,
    pub failure_writer: F,
}

impl<S: SendWriter, F: SendWriter> MinimalOutputHandler<S, F> {
    /// Takes ownership of the two sinks.
    pub fn new(success_writer: S, failure_writer: F) -> (r: Self)
        ensures
            r.success_writer == success_writer,
            r.failure_writer == failure_writer,
    {
        MinimalOutputHandler { success_writer, failure_writer }
    }

    /// The success sink.
    pub fn inner_success_writer(&self) -> (r: &S)
        ensures
            *r == self.success_writer,
    {
        &self.success_writer
    }

    /// The failure sink.
    pub fn inner_failure_writer(&self) -> (r: &F)
        ensures
            *r == self.failure_writer,
    {
        &self.failure_writer
    }

    /// Dispatches one event: appends exactly the event's success output to the
    /// success sink and exactly its failure output to the failure sink. For
    /// any one event at least one of the two is empty, and both are empty
    /// unless the message is a final result, so each call writes at most one
    /// line, to at most one sink, and never clears what was written before.
    pub fn handle(&mut self, event: Event)
        ensures
            final(self).success_writer.contents() == old(self).success_writer.contents()
                + success_output(event.message),
            final(self).failure_writer.contents() == old(self).failure_writer.contents()
                + failure_output(event.message),
    {
        // Early return when the message is not a final result; this also
        // keeps non-final events from contending for a sink's lock.
        if !event.message.is_final_result() {
            proof {
                assert(self.success_writer.contents() =~= old(self).success_writer.contents()
                    + success_output(event.message));
                assert(self.failure_writer.contents() =~= old(self).failure_writer.contents()
                    + failure_output(event.message));
            }
            return ;
        }
        match &event.message {
            Message::ResolvedVersion { version, .. } => {
                match version {
                    Some(v) => {
                        let line = version_line_vec(v);
                        self.success_writer.write_line(&line);
                    },
                    None => {
                        let line = none_line_vec();
                        self.failure_writer.write_line(&line);
                    },
                }
            },
            Message::ListResult { .. } => {
                let line = unsupported_line_vec();
                self.failure_writer.write_line(&line);
            },
            Message::SetOutput { version, .. } => {
                let line = version_line_vec(version);
                self.success_writer.write_line(&line);
            },
            Message::ShowOutput { version, .. } => {
                let line = version_line_vec(version);
                self.success_writer.write_line(&line);
            },
            Message::VerifyResult { compatible, .. } => {
                if *compatible {
                    let line = true_line_vec();
                    self.success_writer.write_line(&line);
                } else {
                    let line = false_line_vec();
                    self.failure_writer.write_line(&line);
                }
            },
            Message::Progress { .. } => {
                // Unreachable: the finality test above already returned.
                proof {
                    assert(false);
                }
            },
        }
        proof {
            assert(self.success_writer.contents() =~= old(self).success_writer.contents()
                + success_output(event.message));
            assert(self.failure_writer.contents() =~= old(self).failure_writer.contents()
                + failure_output(event.message));
        }
    }
}

} // verus!
