//! Write destinations and the policy that selects one per connection.
//!
//! A connection writes decoded bytes either to the process's standard output
//! or to a file opened in create+append mode. The destination is chosen from
//! the configured output identifier when the connection is accepted, with a
//! fallback to standard output when the file cannot be opened, and it never
//! changes for the rest of the connection's lifetime.

use vstd::prelude::*;

verus! {

/// A write destination for one connection's decoded bytes.
pub enum SinkDest {
    /// The process-wide standard output stream.
    StandardOutput,
    /// A file at the given path, opened with create-if-missing and append-only
    /// positioning so concurrent writers never overwrite each other's bytes.
    AppendFile(String),
}

/// Mathematical view of a destination: the file path as a character sequence.
pub enum SinkDestView {
    StandardOutput,
    AppendFile(Seq<char>),
}

impl View for SinkDest {
    type V = SinkDestView;

    open spec fn view(&self) -> SinkDestView {
        match self {
            SinkDest::StandardOutput => SinkDestView::StandardOutput,
            SinkDest::AppendFile(p) => SinkDestView::AppendFile(p@),
        }
    }
}

/// Whether the configured output identifier selects standard output rather
/// than a file path.
pub open spec fn is_stdout_marker(s: Seq<char>) -> bool {
    s == "-"@ || s == "stdout"@
}

/// Selects the destination named by the configured output identifier: `"-"`
/// or `"stdout"` means standard output, any other value is a file path.
pub fn choose_dest(output: &String) -> (d: SinkDest)
    ensures
        d is StandardOutput <==> is_stdout_marker(output@),
        d matches SinkDest::AppendFile(p) ==> p@ == output@,
{
    let dash: String = "-".to_owned();
    let stdout_marker: String = "stdout".to_owned();
    if *output == dash || *output == stdout_marker {
        SinkDest::StandardOutput
    } else {
        SinkDest::AppendFile(output.clone())
    }
}

/// The destination a connection ends up with once the open attempt for a file
/// destination has succeeded or failed: a file that could not be opened falls
/// back to standard output, so construction itself never fails.
pub open spec fn resolved_dest(d: SinkDestView, opened: bool) -> SinkDestView {
    if d is AppendFile && !opened {
        SinkDestView::StandardOutput
    } else {
        d
    }
}

/// Applies the fallback policy after the open attempt: a file destination
/// whose open failed becomes standard output; everything else is kept.
/// This never fails, so an unwritable path can never fail connection setup.
pub fn resolve_open(d: SinkDest, opened: bool) -> (r: SinkDest)
    ensures
        r@ == resolved_dest(d@, opened),
{
    match d {
        SinkDest::StandardOutput => SinkDest::StandardOutput,
        SinkDest::AppendFile(p) => {
            if opened {
                SinkDest::AppendFile(p)
            } else {
                SinkDest::StandardOutput
            }
        },
    }
}

/// Model of one destination: the bytes that have reached the underlying OS
/// resource, and the bytes a write has accepted but a flush has not yet pushed
/// down.
pub struct SinkState {
    pub durable: Seq<u8>,
    pub buffered: Seq<u8>,
}

/// A write appends the given bytes after everything written before them.
pub open spec fn sink_write(s: SinkState, bytes: Seq<u8>) -> SinkState {
    SinkState { durable: s.durable, buffered: s.buffered + bytes }
}

/// A flush pushes the buffered bytes to the OS resource, in order, adding and
/// removing nothing.
pub open spec fn sink_flush(s: SinkState) -> SinkState {
    SinkState { durable: s.durable + s.buffered, buffered: Seq::empty() }
}

/// Everything the destination holds: durable bytes followed by buffered ones.
pub open spec fn sink_contents(s: SinkState) -> Seq<u8> {
    s.durable + s.buffered
}

/// Flushing is idempotent and harmless: a flush never changes what the
/// destination holds, and flushing again after a write already reached the
/// destination neither duplicates nor corrupts the bytes written before.
pub proof fn lemma_flush_idempotent(s: SinkState, bytes: Seq<u8>)
    ensures
        sink_contents(sink_flush(s)) == sink_contents(s),
        sink_flush(sink_flush(sink_write(s, bytes))) == sink_flush(sink_write(s, bytes)),
{
    assert(sink_contents(sink_flush(s)) =~= sink_contents(s));
    assert(sink_flush(sink_flush(sink_write(s, bytes))).durable =~= sink_flush(
        sink_write(s, bytes),
    ).durable);
    assert(sink_flush(sink_flush(sink_write(s, bytes))).buffered =~= sink_flush(
        sink_write(s, bytes),
    ).buffered);
}

} // verus!
