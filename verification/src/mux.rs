//! The tagged stream multiplexer and its aggregation model.
//!
//! A child process exposes two pipes; each is read elsewhere as a sequence of
//! decoded lines. The driver feeds every observation — a line, an end of
//! stream, or a read failure — into the [`Multiplexer`] as a [`MuxEvent`].
//! The multiplexer forwards each line to the sink channel (best effort) and
//! accumulates it into the buffer of its origin. Per-origin text is the
//! newline-join of that origin's lines, in arrival order, whatever the
//! interleaving between origins was.

use vstd::prelude::*;
use vstd::string::StringExecFns;

use crate::nx::{ExitStatus, InvokeError, Output};
use crate::sink::sink_send;

verus! {

/// Identifies which output pipe a captured line came from.
#[derive(Clone, Copy, Debug, Hash, PartialEq, Eq, Structural)]
pub enum IoType {
    StdOut,
    StdErr,
}

impl IoType {
    /// Stable human-readable rendering of the tag.
    pub fn as_str(&self) -> (r: &'static str)
        ensures
            *self is StdOut ==> r@ == "stdout"@,
            *self is StdErr ==> r@ == "stderr"@,
    {
        match self {
            IoType::StdOut => "stdout",
            IoType::StdErr => "stderr",
        }
    }
}

/// The lines of one origin, in arrival order, extracted from an interleaved
/// item sequence.
pub open spec fn lines_for(items: Seq<(IoType, Seq<char>)>, tag: IoType) -> Seq<Seq<char>>
    decreases items.len(),
{
    if items.len() == 0 {
        Seq::empty()
    } else {
        let rest = lines_for(items.drop_last(), tag);
        if items.last().0 == tag {
            rest.push(items.last().1)
        } else {
            rest
        }
    }
}

/// Lines joined by a single newline: no terminator after the last line and
/// the empty text for no lines at all.
pub open spec fn join_lines(lines: Seq<Seq<char>>) -> Seq<char>
    decreases lines.len(),
{
    if lines.len() == 0 {
        Seq::empty()
    } else if lines.len() == 1 {
        lines[0]
    } else {
        join_lines(lines.drop_last()) + seq!['\n'] + lines.last()
    }
}

/// An interleaved item sequence whose per-origin projections are exactly the
/// given line sequences.
pub open spec fn is_interleaving(
    items: Seq<(IoType, Seq<char>)>,
    outs: Seq<Seq<char>>,
    errs: Seq<Seq<char>>,
) -> bool {
    &&& lines_for(items, IoType::StdOut) == outs
    &&& lines_for(items, IoType::StdErr) == errs
}

/// Law: aggregation is independent of the interleaving. For every item
/// sequence whose per-origin projections are the given line sequences, each
/// origin's aggregated text is the newline-join of that origin's own lines
/// alone, in their order — the other origin and the interleaving between the
/// two play no part in it.
pub proof fn lemma_aggregation_ignores_interleaving(
    items: Seq<(IoType, Seq<char>)>,
    outs: Seq<Seq<char>>,
    errs: Seq<Seq<char>>,
)
    requires
        is_interleaving(items, outs, errs),
    ensures
        join_lines(lines_for(items, IoType::StdOut)) == join_lines(outs),
        join_lines(lines_for(items, IoType::StdErr)) == join_lines(errs),
{
}

/// Law: an origin that ends without producing a line contributes nothing to
/// the merge. An interleaving whose standard-error projection is empty is
/// exactly the standard-output lines, each item tagged as standard output.
pub proof fn lemma_silent_origin(items: Seq<(IoType, Seq<char>)>, outs: Seq<Seq<char>>)
    requires
        is_interleaving(items, outs, Seq::empty()),
    ensures
        items.len() == outs.len(),
        forall|i: int| 0 <= i < items.len() ==> items[i] == (IoType::StdOut, outs[i]),
    decreases items.len(),
{
    if items.len() == 0 {
        assert(outs.len() == 0);
    } else {
        let last = items.last();
        let prefix = items.drop_last();
        match last.0 {
            IoType::StdErr => {
                assert(lines_for(items, IoType::StdErr)
                    == lines_for(prefix, IoType::StdErr).push(last.1));
                assert(lines_for(items, IoType::StdErr).len() > 0);
                assert(false);
            },
            IoType::StdOut => {
                assert(lines_for(items, IoType::StdOut)
                    == lines_for(prefix, IoType::StdOut).push(last.1));
                assert(outs.len() > 0);
                assert(lines_for(prefix, IoType::StdOut) =~= outs.drop_last());
                assert(lines_for(prefix, IoType::StdErr) == lines_for(items, IoType::StdErr));
                lemma_silent_origin(prefix, outs.drop_last());
                assert(last.1 == outs.last());
                assert forall|i: int| 0 <= i < items.len() implies items[i]
                    == (IoType::StdOut, outs[i]) by {
                    if i < items.len() - 1 {
                        assert(items[i] == prefix[i]);
                        assert(outs[i] == outs.drop_last()[i]);
                    } else {
                        assert(items[i] == last);
                    }
                }
            },
        }
    }
}

/// Accumulates multiplexed lines into one text buffer per origin.
///
/// Each buffer is the newline-join of its origin's lines in arrival order,
/// so multi-line output keeps its line breaks (documented choice).
pub struct Aggregator {
    stdout: String,
    stderr: String,
    any_out: bool,
    any_err: bool,
    history: Ghost<Seq<(IoType, Seq<char>)>>,
}

impl Aggregator {
    /// Every item accumulated so far, in arrival order.
    pub closed spec fn history(self) -> Seq<(IoType, Seq<char>)> {
        self.history@
    }

    pub closed spec fn inv(self) -> bool {
        &&& self.stdout@ == join_lines(lines_for(self.history@, IoType::StdOut))
        &&& self.stderr@ == join_lines(lines_for(self.history@, IoType::StdErr))
        &&& self.any_out == (lines_for(self.history@, IoType::StdOut).len() != 0)
        &&& self.any_err == (lines_for(self.history@, IoType::StdErr).len() != 0)
    }

    pub fn new() -> (a: Aggregator)
        ensures
            a.inv(),
            a.history() == Seq::<(IoType, Seq<char>)>::empty(),
    {
        Aggregator {
            stdout: String::new(),
            stderr: String::new(),
            any_out: false,
            any_err: false,
            history: Ghost(Seq::empty()),
        }
    }

    /// Accumulates one line into the buffer of its origin.
    pub fn push(&mut self, tag: IoType, line: &str)
        requires
            old(self).inv(),
        ensures
            final(self).inv(),
            final(self).history() == old(self).history().push((tag, line@)),
    {
        let ghost h0 = self.history@;
        match tag {
            IoType::StdOut => {
                if self.any_out {
                    self.stdout.append("\n");
                }
                self.stdout.append(line);
                self.any_out = true;
            },
            IoType::StdErr => {
                if self.any_err {
                    self.stderr.append("\n");
                }
                self.stderr.append(line);
                self.any_err = true;
            },
        }
        proof {
            self.history@ = h0.push((tag, line@));
            reveal_strlit("\n");
            assert("\n"@ =~= seq!['\n']);
            let h1 = self.history@;
            assert(h1.drop_last() =~= h0);
            assert(h1.last() == (tag, line@));
            let other = if tag is StdOut { IoType::StdErr } else { IoType::StdOut };
            let lt0 = lines_for(h0, tag);
            let lt1 = lines_for(h1, tag);
            assert(lt1 =~= lt0.push(line@));
            assert(lines_for(h1, other) =~= lines_for(h0, other));
            assert(lt1.drop_last() =~= lt0);
            assert(lt1.last() == line@);
            if lt0.len() == 0 {
                assert(lt1[0] == line@);
                assert(join_lines(lt1) == line@);
                assert(join_lines(lt0) =~= Seq::<char>::empty());
                assert(join_lines(lt0) + line@ =~= line@);
            } else {
                assert(join_lines(lt1) == join_lines(lt1.drop_last()) + seq!['\n'] + lt1.last());
                assert(join_lines(lt1.drop_last()) == join_lines(lt0));
            }
        }
    }

    /// Hands out the two aggregated buffers, standard output first.
    pub fn into_texts(self) -> (r: (String, String))
        requires
            self.inv(),
        ensures
            r.0@ == join_lines(lines_for(self.history(), IoType::StdOut)),
            r.1@ == join_lines(lines_for(self.history(), IoType::StdErr)),
    {
        (self.stdout, self.stderr)
    }
}

/// One observation made on a registered line reader: a decoded line, the end
/// of the stream, or a read (or decode) failure.
pub enum MuxEvent {
    Line(IoType, String),
    Eof(IoType),
    ReadError(IoType, String),
}

impl MuxEvent {
    /// The origin the event belongs to.
    pub open spec fn tag(self) -> IoType {
        match self {
            MuxEvent::Line(t, _) => t,
            MuxEvent::Eof(t) => t,
            MuxEvent::ReadError(t, _) => t,
        }
    }
}

/// Merges the line streams of the registered origins, event by event.
///
/// The driver registers an origin for each pipe it actually opened, then
/// feeds every observation in arrival order. Each line is forwarded to the
/// sink (best effort, never affecting the outcome) and accumulated into its
/// origin's buffer; a read failure fails the whole capture at once. The
/// merge is finished when every registered origin has reached its end.
pub struct Multiplexer {
    active_out: bool,
    active_err: bool,
    agg: Aggregator,
    failure: Option<InvokeError>,
    sink: Option<tokio::sync::mpsc::UnboundedSender<String>>,
    offered: Ghost<Seq<Seq<char>>>,
}

impl Multiplexer {
    /// Every line accepted so far, with its origin, in arrival order.
    pub closed spec fn history(self) -> Seq<(IoType, Seq<char>)> {
        self.agg.history()
    }

    /// Whether the given origin is registered and has not ended yet.
    pub closed spec fn active(self, tag: IoType) -> bool {
        match tag {
            IoType::StdOut => self.active_out,
            IoType::StdErr => self.active_err,
        }
    }

    /// The read failure that aborted the capture, if one occurred.
    pub closed spec fn error(self) -> Option<InvokeError> {
        self.failure
    }

    /// The sink sender every accepted line is mirrored to, when one is set.
    pub closed spec fn spec_sink(self) -> Option<tokio::sync::mpsc::UnboundedSender<String>> {
        self.sink
    }

    /// The lines offered to the sink so far, in order: every accepted line
    /// while a sink is set, none while none is.
    pub closed spec fn offered(self) -> Seq<Seq<char>> {
        self.offered@
    }

    pub closed spec fn inv(self) -> bool {
        self.agg.inv()
    }

    /// Whether every registered origin has ended.
    pub open spec fn done(self) -> bool {
        !self.active(IoType::StdOut) && !self.active(IoType::StdErr)
    }

    /// A fresh multiplexer with no registered origin, mirroring each line to
    /// the given sink when one is present.
    pub fn new(sink: Option<tokio::sync::mpsc::UnboundedSender<String>>) -> (m: Multiplexer)
        ensures
            m.inv(),
            m.history() == Seq::<(IoType, Seq<char>)>::empty(),
            m.error() is None,
            m.spec_sink() == sink,
            m.offered() == Seq::<Seq<char>>::empty(),
            !m.active(IoType::StdOut),
            !m.active(IoType::StdErr),
    {
        Multiplexer {
            active_out: false,
            active_err: false,
            agg: Aggregator::new(),
            failure: None,
            sink,
            offered: Ghost(Seq::empty()),
        }
    }

    /// Registers one origin whose stream the driver will observe.
    pub fn register(&mut self, tag: IoType)
        requires
            old(self).inv(),
        ensures
            final(self).inv(),
            final(self).history() == old(self).history(),
            final(self).error() == old(self).error(),
            final(self).spec_sink() == old(self).spec_sink(),
            final(self).offered() == old(self).offered(),
            forall|t: IoType| #[trigger] final(self).active(t) == (t == tag || old(self).active(t)),
    {
        match tag {
            IoType::StdOut => self.active_out = true,
            IoType::StdErr => self.active_err = true,
        }
    }

    /// True when every registered origin has ended, so the merged sequence
    /// is complete.
    pub fn is_done(&self) -> (r: bool)
        ensures
            r == self.done(),
    {
        !self.active_out && !self.active_err
    }

    /// True while the given origin is registered and has not ended.
    pub fn is_active(&self, tag: IoType) -> (r: bool)
        ensures
            r == self.active(tag),
    {
        match tag {
            IoType::StdOut => self.active_out,
            IoType::StdErr => self.active_err,
        }
    }

    /// True when a read failure has aborted the capture.
    pub fn has_failed(&self) -> (r: bool)
        ensures
            r == (self.error() is Some),
    {
        self.failure.is_some()
    }

    /// Takes in one observation on an active origin.
    ///
    /// A line is offered to the sink when one is set (recorded in
    /// [`Multiplexer::offered`]), then accumulated; the offer's outcome has
    /// no bearing on the state this contract speaks of. An end of stream
    /// deactivates its origin. A read failure records the aborting error.
    pub fn on_event(&mut self, event: MuxEvent)
        requires
            old(self).inv(),
            old(self).error() is None,
            old(self).active(event.tag()),
        ensures
            final(self).inv(),
            final(self).spec_sink() == old(self).spec_sink(),
            event matches MuxEvent::Line(tag, line) ==> {
                &&& final(self).history() == old(self).history().push((tag, line@))
                &&& final(self).error() is None
                &&& final(self).offered() == (if old(self).spec_sink() is Some {
                    old(self).offered().push(line@)
                } else {
                    old(self).offered()
                })
                &&& forall|t: IoType| #[trigger] final(self).active(t) == old(self).active(t)
            },
            event matches MuxEvent::Eof(tag) ==> {
                &&& final(self).history() == old(self).history()
                &&& final(self).error() is None
                &&& final(self).offered() == old(self).offered()
                &&& forall|t: IoType| #[trigger] final(self).active(t)
                    == (old(self).active(t) && t != tag)
            },
            event matches MuxEvent::ReadError(tag, msg) ==> {
                &&& final(self).history() == old(self).history()
                &&& final(self).error() == Some(InvokeError::PipeRead(tag, msg))
                &&& final(self).offered() == old(self).offered()
                &&& forall|t: IoType| #[trigger] final(self).active(t) == old(self).active(t)
            },
    {
        match event {
            MuxEvent::Line(tag, line) => {
                match &self.sink {
                    Some(tx) => sink_send(tx, line.clone()),
                    None => (),
                }
                proof {
                    if self.sink is Some {
                        self.offered@ = self.offered@.push(line@);
                    }
                }
                self.agg.push(tag, line.as_str());
            },
            MuxEvent::Eof(tag) => {
                match tag {
                    IoType::StdOut => self.active_out = false,
                    IoType::StdErr => self.active_err = false,
                }
            },
            MuxEvent::ReadError(tag, msg) => {
                self.failure = Some(InvokeError::PipeRead(tag, msg));
            },
        }
    }

    /// Gives back the aborting read failure, if any.
    pub fn take_failure(self) -> (r: Option<InvokeError>)
        ensures
            r == self.error(),
    {
        self.failure
    }

    /// Builds the final aggregated result once the capture is complete: the
    /// given exit status, and per origin the newline-join of exactly that
    /// origin's lines, in arrival order — whatever the interleaving between
    /// origins was.
    pub fn finish(self, status: ExitStatus) -> (out: Output)
        requires
            self.inv(),
            self.error() is None,
            self.done(),
        ensures
            out.status == status,
            out.stdout@ == join_lines(lines_for(self.history(), IoType::StdOut)),
            out.stderr@ == join_lines(lines_for(self.history(), IoType::StdErr)),
    {
        let (stdout, stderr) = self.agg.into_texts();
        Output { status, stdout, stderr }
    }
}

} // verus!
