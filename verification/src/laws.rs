use vstd::prelude::*;

use crate::message::Message;
use crate::message::failure_output;
use crate::message::false_line;
use crate::message::none_line;
use crate::message::success_output;
use crate::message::true_line;
use crate::message::unsupported_line;
use crate::message::version_line;
use crate::version::BareVersion;
use crate::version::lemma_version_bytes_no_newline;
use crate::version::version_bytes;

verus! {

/// A single output line: non-empty, newline-terminated, and holding no other
/// newline.
pub open spec fn is_single_line(s: Seq<u8>) -> bool {
    &&& s.len() > 0
    &&& s[s.len() - 1] == 10
    &&& forall|i: int| 0 <= i < s.len() - 1 ==> s[i] != 10
}

/// A version's line is a single line: the version's digits and dots hold no
/// newline, and exactly one newline ends the line.
pub proof fn lemma_version_line_is_single_line(v: BareVersion)
    ensures
        is_single_line(version_line(v)),
{
    lemma_version_bytes_no_newline(v);
    assert forall|i: int| 0 <= i < version_line(v).len() - 1 implies version_line(v)[i] != 10 by {
        assert(version_line(v)[i] == version_bytes(v)[i]);
    }
}

/// A message that is not a final result writes to neither sink: its output for
/// each sink is empty, so appending it leaves the sink's contents byte-for-byte
/// unchanged.
pub proof fn lemma_non_final_writes_nothing(pre_success: Seq<u8>, pre_failure: Seq<u8>, m: Message)
    requires
        !m.is_final(),
    ensures
        success_output(m) == Seq::<u8>::empty(),
        failure_output(m) == Seq::<u8>::empty(),
        pre_success + success_output(m) == pre_success,
        pre_failure + failure_output(m) == pre_failure,
{
    assert(pre_success + success_output(m) =~= pre_success);
    assert(pre_failure + failure_output(m) =~= pre_failure);
}

/// A resolved version that is present goes to the success sink as the
/// version's own line; the failure sink receives nothing. The target and the
/// search bounds the message carries never reach either sink.
pub proof fn lemma_resolved_version_present(m: Message)
    requires
        m matches Message::ResolvedVersion { version: Some(_), .. },
    ensures
        m matches Message::ResolvedVersion { version: Some(v), .. } ==> success_output(m)
            == version_line(v),
        failure_output(m) == Seq::<u8>::empty(),
{
}

/// A resolved version that is absent goes to the failure sink as the line
/// `none\n`; the success sink receives nothing.
pub proof fn lemma_resolved_version_absent(m: Message)
    requires
        m matches Message::ResolvedVersion { version: None, .. },
    ensures
        failure_output(m) == none_line(),
        success_output(m) == Seq::<u8>::empty(),
{
}

/// Any listing result, whatever its variant and content, goes to the failure
/// sink as the line `unsupported\n`; the success sink receives nothing.
pub proof fn lemma_list_result_unsupported(m: Message)
    requires
        m matches Message::ListResult { .. },
    ensures
        failure_output(m) == unsupported_line(),
        success_output(m) == Seq::<u8>::empty(),
{
}

/// A set-output result goes to the success sink as the version's own line,
/// whatever manifest path it carries; the failure sink receives nothing.
pub proof fn lemma_set_output(m: Message)
    requires
        m matches Message::SetOutput { .. },
    ensures
        m matches Message::SetOutput { version, .. } ==> success_output(m) == version_line(version),
        failure_output(m) == Seq::<u8>::empty(),
{
}

/// A show-output result goes to the success sink as the version's own line,
/// whatever manifest path it carries; the failure sink receives nothing.
pub proof fn lemma_show_output(m: Message)
    requires
        m matches Message::ShowOutput { .. },
    ensures
        m matches Message::ShowOutput { version, .. } ==> success_output(m) == version_line(
            version,
        ),
        failure_output(m) == Seq::<u8>::empty(),
{
}

/// A compatible verify result goes to the success sink as the line `true\n`,
/// regardless of any attached detail message; the failure sink receives
/// nothing.
pub proof fn lemma_verify_compatible(m: Message)
    requires
        m matches Message::VerifyResult { compatible: true, .. },
    ensures
        success_output(m) == true_line(),
        failure_output(m) == Seq::<u8>::empty(),
{
}

/// An incompatible verify result goes to the failure sink as the line
/// `false\n`, whether or not a detail message is attached; the detail never
/// appears in any output, and the success sink receives nothing.
pub proof fn lemma_verify_incompatible(m: Message)
    requires
        m matches Message::VerifyResult { compatible: false, .. },
    ensures
        failure_output(m) == false_line(),
        success_output(m) == Seq::<u8>::empty(),
{
}

/// Per dispatched event, exactly zero or one line is written, to exactly one
/// of the two sinks and never both: a final message produces one single line
/// on exactly one sink, and a non-final message produces nothing on either.
pub proof fn lemma_one_line_per_event(m: Message)
    ensures
        m.is_final() ==> (success_output(m) == Seq::<u8>::empty()) != (failure_output(m)
            == Seq::<u8>::empty()),
        !m.is_final() ==> success_output(m) == Seq::<u8>::empty() && failure_output(m)
            == Seq::<u8>::empty(),
        success_output(m) != Seq::<u8>::empty() ==> is_single_line(success_output(m)),
        failure_output(m) != Seq::<u8>::empty() ==> is_single_line(failure_output(m)),
{
    match m {
        Message::ResolvedVersion { version, .. } => match version {
            Some(v) => {
                lemma_version_line_is_single_line(v);
                assert(success_output(m).len() > 0);
            },
            None => {
                assert(failure_output(m).len() == 5);
            },
        },
        Message::ListResult { .. } => {
            assert(failure_output(m).len() == 12);
        },
        Message::SetOutput { version, .. } => {
            lemma_version_line_is_single_line(version);
            assert(success_output(m).len() > 0);
        },
        Message::ShowOutput { version, .. } => {
            lemma_version_line_is_single_line(version);
            assert(success_output(m).len() > 0);
        },
        Message::VerifyResult { compatible, .. } => {
            if compatible {
                assert(success_output(m).len() == 5);
            } else {
                assert(failure_output(m).len() == 6);
            }
        },
        Message::Progress { .. } => {
        },
    }
}

/// Dispatching only ever appends: what stood on a sink before a call stands
/// there unchanged as a prefix after it, so two sequential calls append
/// independently and no call clears a sink.
pub proof fn lemma_dispatch_preserves_prefix(pre: Seq<u8>, m: Message)
    ensures
        (pre + success_output(m)).subrange(0, pre.len() as int) == pre,
        (pre + failure_output(m)).subrange(0, pre.len() as int) == pre,
{
    assert((pre + success_output(m)).subrange(0, pre.len() as int) =~= pre);
    assert((pre + failure_output(m)).subrange(0, pre.len() as int) =~= pre);
}

} // verus!
