//! Sequential reading: a handle that decodes the lines its owner pulls from
//! the input, one at a time or in bounded batches.
//!
//! The handle does not touch the input itself. Whoever owns the input pulls
//! the next line and hands it over; a line without content stands for the
//! end of the input.

use crate::failure::{class_of, classify, IoFailure};
use crate::header::{parse_header, parse_error_detail, HeaderError, VcfHeader};
use crate::vcf::header_error_text;
use std::io::ErrorKind;
use crate::record::{decode_record, record_of, texts, DecodeError, VcfRecord, VcfRecordView};
use crate::vcf::{header_outcome, line_error_text, line_outcome, record_columns};
use vstd::prelude::*;
use vstd::string::StringExecFns;

verus! {

/// What one pulled line amounts to.
pub enum LineEvent {
    /// The line has no content: the input has ended.
    End,
    /// The line decodes to this record.
    Good(VcfRecordView),
    /// The line is rejected with this detail.
    Bad(Seq<char>),
}

/// What a pulled line amounts to under a header.
pub open spec fn event_of(header: VcfHeader, line: Seq<char>) -> LineEvent {
    if line.len() == 0 {
        LineEvent::End
    } else {
        match line_outcome(line, header.engine()) {
            Ok(parsed) => LineEvent::Good(record_of(record_columns(parsed))),
            Err(error) => LineEvent::Bad(line_error_text(error)),
        }
    }
}

/// The records of an executable list as contracts see them.
pub open spec fn record_views(records: Seq<VcfRecord>) -> Seq<VcfRecordView> {
    records.map_values(|r: VcfRecord| r@)
}

/// The state of one bounded batch read.
///
/// A batch pulls lines until it has decoded as many records as were asked
/// for or the input has ended. A rejected line does not stop it: it goes on
/// pulling and counting, but keeps no record any more, neither the earlier
/// ones nor the later ones, and remembers the first rejection.
pub struct Batch {
    wanted: usize,
    decoded: usize,
    records: Vec<VcfRecord>,
    failure: Option<DecodeError>,
    ended: bool,
}

/// A `Batch` as contracts see it.
pub struct BatchView {
    /// How many records were asked for.
    pub wanted: nat,
    /// How many lines have decoded to a record so far.
    pub decoded: nat,
    /// The records kept so far.
    pub records: Seq<VcfRecordView>,
    /// The detail of the first rejected line, if there was one.
    pub failure: Option<Seq<char>>,
    /// Whether the end of the input was met.
    pub ended: bool,
}

/// The batch before any line was pulled.
pub open spec fn fresh(count: nat) -> BatchView {
    BatchView { wanted: count, decoded: 0, records: Seq::empty(), failure: None, ended: false }
}

/// Whether the batch pulls another line.
pub open spec fn wants(b: BatchView) -> bool {
    b.decoded < b.wanted && !b.ended
}

/// The batch after one more pulled line. A batch that wants no line ignores
/// it.
pub open spec fn step(b: BatchView, event: LineEvent) -> BatchView {
    if !wants(b) {
        b
    } else {
        match event {
            LineEvent::End => BatchView { ended: true, ..b },
            LineEvent::Good(record) => BatchView {
                decoded: b.decoded + 1,
                records: if b.failure is None {
                    b.records.push(record)
                } else {
                    b.records
                },
                ..b
            },
            LineEvent::Bad(detail) => BatchView {
                records: Seq::empty(),
                failure: if b.failure is None {
                    Some(detail)
                } else {
                    b.failure
                },
                ..b
            },
        }
    }
}

/// The batch after a run of pulled lines.
pub open spec fn run(b: BatchView, events: Seq<LineEvent>) -> BatchView
    decreases events.len(),
{
    if events.len() == 0 {
        b
    } else {
        step(run(b, events.drop_last()), events.last())
    }
}

/// What the batch hands back: the first rejection if there was one, else
/// the records.
pub open spec fn outcome(b: BatchView) -> Result<Seq<VcfRecordView>, Seq<char>> {
    match b.failure {
        Some(detail) => Err(detail),
        None => Ok(b.records),
    }
}

/// What holds of every batch that lines were fed to.
pub open spec fn consistent(b: BatchView) -> bool {
    &&& b.decoded <= b.wanted
    &&& b.failure is None ==> b.records.len() == b.decoded
    &&& b.failure is Some ==> b.records.len() == 0
}

impl View for Batch {
    type V = BatchView;

    closed spec fn view(&self) -> BatchView {
        BatchView {
            wanted: self.wanted as nat,
            decoded: self.decoded as nat,
            records: record_views(self.records@),
            failure: match self.failure {
                Some(error) => Some(error.detail@),
                None => None,
            },
            ended: self.ended,
        }
    }
}

impl Batch {
    /// A batch that asks for `count` records.
    pub fn new(count: usize) -> (batch: Batch)
        ensures
            batch@ == fresh(count as nat),
    {
        let batch = Batch {
            wanted: count,
            decoded: 0,
            records: Vec::new(),
            failure: None,
            ended: false,
        };
        assert(record_views(batch.records@) =~= Seq::empty());
        batch
    }

    /// Whether the batch pulls another line.
    pub fn wants_line(&self) -> (w: bool)
        ensures
            w == wants(self@),
    {
        self.decoded < self.wanted && !self.ended
    }

    /// Takes the next pulled line.
    pub fn offer(&mut self, header: &VcfHeader, line: &str)
        ensures
            final(self)@ == step(old(self)@, event_of(*header, line@)),
    {
        if !self.wants_line() {
            return ;
        }
        if line.is_empty() {
            self.ended = true;
            return ;
        }
        match decode_record(header, line) {
            Ok(record) => {
                self.decoded = self.decoded + 1;
                if self.failure.is_none() {
                    self.records.push(record);
                    assert(record_views(self.records@) =~= record_views(old(self).records@).push(
                        record@,
                    ));
                }
            },
            Err(error) => {
                self.records = Vec::new();
                assert(record_views(self.records@) =~= Seq::empty());
                if self.failure.is_none() {
                    self.failure = Some(error);
                }
            },
        }
    }

    /// Ends the batch and hands back its outcome.
    pub fn finish(self) -> (r: Result<Vec<VcfRecord>, DecodeError>)
        ensures
            match outcome(self@) {
                Ok(records) => r is Ok && record_views(r->Ok_0@) == records && r->Ok_0@.len()
                    == records.len(),
                Err(detail) => r is Err && r->Err_0.detail@ == detail,
            },
    {
        match self.failure {
            Some(error) => Err(error),
            None => Ok(self.records),
        }
    }
}

/// What pulled lines amount to under a header, line by line.
pub open spec fn events_of(header: VcfHeader, lines: Seq<Seq<char>>) -> Seq<LineEvent> {
    lines.map_values(|line: Seq<char>| event_of(header, line))
}

/// How many of the lines on offer the batch pulls.
pub open spec fn pulled(b: BatchView, events: Seq<LineEvent>) -> nat
    decreases events.len(),
{
    if events.len() == 0 {
        0
    } else if wants(run(b, events.drop_last())) {
        pulled(b, events.drop_last()) + 1
    } else {
        pulled(b, events.drop_last())
    }
}

/// Whether the batch pulls a rejected line from the lines on offer.
pub open spec fn meets_bad(b: BatchView, events: Seq<LineEvent>) -> bool {
    exists|i: int|
        0 <= i < events.len() && wants(#[trigger] run(b, events.take(i))) && events[i] is Bad
}

/// A batch that wants no line stays as it is, whatever is on offer.
pub proof fn lemma_run_idle(b: BatchView, events: Seq<LineEvent>)
    requires
        !wants(b),
    ensures
        run(b, events) == b,
    decreases events.len(),
{
    if events.len() > 0 {
        lemma_run_idle(b, events.drop_last());
    }
}

/// Feeding two runs of lines one after the other is feeding their
/// concatenation.
pub proof fn lemma_run_concat(b: BatchView, first: Seq<LineEvent>, second: Seq<LineEvent>)
    ensures
        run(b, first + second) == run(run(b, first), second),
    decreases second.len(),
{
    if second.len() == 0 {
        assert(first + second =~= first);
    } else {
        lemma_run_concat(b, first, second.drop_last());
        assert((first + second).drop_last() =~= first + second.drop_last());
    }
}

/// A batch never wants a line again once it has stopped wanting one.
pub proof fn lemma_run_stops(b: BatchView, events: Seq<LineEvent>, i: int)
    requires
        0 <= i <= events.len(),
        !wants(run(b, events.take(i))),
    ensures
        run(b, events) == run(b, events.take(i)),
        pulled(b, events) == pulled(b, events.take(i)),
    decreases events.len() - i,
{
    if i == events.len() {
        assert(events.take(i) =~= events);
    } else {
        let init = events.drop_last();
        assert(init.take(i) =~= events.take(i));
        lemma_run_stops(b, init, i);
    }
}

/// Every batch that started fresh is consistent: it has decoded no more
/// lines than were asked for, and it keeps either every record it decoded
/// or, after a rejection, none.
pub proof fn lemma_run_consistent(count: nat, events: Seq<LineEvent>)
    ensures
        consistent(run(fresh(count), events)),
        run(fresh(count), events).wanted == count,
    decreases events.len(),
{
    if events.len() > 0 {
        lemma_run_consistent(count, events.drop_last());
    }
}

/// A batch fails exactly when it pulls a rejected line.
pub proof fn lemma_run_failure(count: nat, events: Seq<LineEvent>)
    ensures
        run(fresh(count), events).failure is Some <==> meets_bad(fresh(count), events),
    decreases events.len(),
{
    let b = fresh(count);
    if events.len() > 0 {
        let init = events.drop_last();
        let last = events.len() - 1;
        lemma_run_failure(count, init);
        assert(events.take(last) =~= init);
        if meets_bad(b, init) {
            let i = choose|i: int|
                0 <= i < init.len() && wants(#[trigger] run(b, init.take(i))) && init[i] is Bad;
            assert(events.take(i) =~= init.take(i));
            assert(wants(run(b, events.take(i))) && events[i] is Bad);
        }
        if meets_bad(b, events) {
            let i = choose|i: int|
                0 <= i < events.len() && wants(#[trigger] run(b, events.take(i)))
                    && events[i] is Bad;
            if i < last {
                assert(events.take(i) =~= init.take(i));
                assert(wants(run(b, init.take(i))) && init[i] is Bad);
            }
        }
        if wants(run(b, init)) && events[last] is Bad {
            assert(wants(run(b, events.take(last))));
        }
    }
}

/// The law of a bounded batch read of `count` records, whatever lines are
/// on offer. A batch that succeeds hands back at most `count` records. If it
/// hands back fewer and wants no further line, it has met the end of the
/// input. If it pulled a rejected line, it fails and hands back no record.
pub proof fn lemma_batch_law(count: nat, events: Seq<LineEvent>)
    ensures
        outcome(run(fresh(count), events)) matches Ok(records) ==> records.len() <= count,
        outcome(run(fresh(count), events)) matches Ok(records) ==> (records.len() < count
            && !wants(run(fresh(count), events)) ==> run(fresh(count), events).ended),
        meets_bad(fresh(count), events) <==> outcome(run(fresh(count), events)) is Err,
        outcome(run(fresh(count), events)) is Err ==> run(fresh(count), events).records.len() == 0,
{
    lemma_run_consistent(count, events);
    lemma_run_failure(count, events);
}

/// Where a handle stands in its life.
#[derive(Clone, Copy, Debug, PartialEq, Eq, Structural)]
pub enum Status {
    /// The header is ready and no line was read.
    Opened,
    /// Lines are being read.
    Streaming,
    /// The end of the input was met.
    Exhausted,
    /// A single read met a rejected line.
    Faulted,
}

/// Why a single read gave no record.
#[derive(Clone, Debug)]
pub enum ReadError {
    /// The input has ended. This is the regular end of reading, no failure.
    EndOfStream,
    /// The line was rejected.
    Decode(DecodeError),
}

/// The status after a single read. `Exhausted` and `Faulted` are final.
pub open spec fn after_line(status: Status, event: LineEvent) -> Status {
    match status {
        Status::Exhausted => Status::Exhausted,
        Status::Faulted => Status::Faulted,
        _ => match event {
            LineEvent::End => Status::Exhausted,
            LineEvent::Good(_) => Status::Streaming,
            LineEvent::Bad(_) => Status::Faulted,
        },
    }
}

/// The status after a batch read. `Exhausted` and `Faulted` are final.
pub open spec fn after_batch(status: Status, batch: BatchView) -> Status {
    match status {
        Status::Exhausted => Status::Exhausted,
        Status::Faulted => Status::Faulted,
        _ => if batch.ended {
            Status::Exhausted
        } else {
            Status::Streaming
        },
    }
}

/// A parsed header together with the reading status of the input that the
/// header came from.
pub struct VcfHandle {
    header: VcfHeader,
    status: Status,
}

impl VcfHandle {
    /// The header of the handle.
    pub closed spec fn spec_header(&self) -> VcfHeader {
        self.header
    }

    /// The status of the handle.
    pub closed spec fn spec_status(&self) -> Status {
        self.status
    }

    /// Makes a handle from the header text of an input. There is a handle
    /// exactly when the text parses as a header; it is then `Opened`.
    pub fn open(header_text: &str) -> (r: Result<VcfHandle, HeaderError>)
        ensures
            match header_outcome(header_text@) {
                Ok(engine) => r matches Ok(handle) && handle.spec_status() == Status::Opened
                    && handle.spec_header().engine() == engine,
                Err(cause) => r matches Err(error) && error.detail@ == parse_error_detail(
                    header_error_text(cause),
                ),
            },
    {
        match parse_header(header_text) {
            Ok(header) => Ok(VcfHandle { header, status: Status::Opened }),
            Err(error) => Err(error),
        }
    }

    /// The header of the handle.
    pub fn header(&self) -> (header: &VcfHeader)
        ensures
            *header == self.spec_header(),
    {
        &self.header
    }

    /// The status of the handle.
    pub fn status(&self) -> (status: Status)
        ensures
            status == self.spec_status(),
    {
        self.status
    }

    /// Reads one record from the line that was pulled next. A line without
    /// content is the end of the input; any other line is decoded, and its
    /// rejection is handed on.
    pub fn read_one(&mut self, line: &str) -> (r: Result<VcfRecord, ReadError>)
        ensures
            final(self).spec_header() == old(self).spec_header(),
            final(self).spec_status() == after_line(
                old(self).spec_status(),
                event_of(old(self).spec_header(), line@),
            ),
            match event_of(old(self).spec_header(), line@) {
                LineEvent::End => r matches Err(ReadError::EndOfStream),
                LineEvent::Good(record) => r matches Ok(read) && read@ == record,
                LineEvent::Bad(detail) => r matches Err(ReadError::Decode(error)) && error.detail@
                    == detail,
            },
    {
        let live = match self.status {
            Status::Exhausted => false,
            Status::Faulted => false,
            _ => true,
        };
        if line.is_empty() {
            if live {
                self.status = Status::Exhausted;
            }
            return Err(ReadError::EndOfStream);
        }
        match decode_record(&self.header, line) {
            Ok(record) => {
                if live {
                    self.status = Status::Streaming;
                }
                Ok(record)
            },
            Err(error) => {
                if live {
                    self.status = Status::Faulted;
                }
                Err(ReadError::Decode(error))
            },
        }
    }

    /// Ends a batch that was fed from this handle's input and hands back its
    /// outcome.
    pub fn finish_batch(&mut self, batch: Batch) -> (r: Result<Vec<VcfRecord>, DecodeError>)
        ensures
            final(self).spec_header() == old(self).spec_header(),
            final(self).spec_status() == after_batch(old(self).spec_status(), batch@),
            match outcome(batch@) {
                Ok(records) => r is Ok && record_views(r->Ok_0@) == records,
                Err(detail) => r is Err && r->Err_0.detail@ == detail,
            },
    {
        match self.status {
            Status::Exhausted => {},
            Status::Faulted => {},
            _ => {
                if batch.ended {
                    self.status = Status::Exhausted;
                } else {
                    self.status = Status::Streaming;
                }
            },
        }
        batch.finish()
    }
}

/// A sequential cursor over lines held in memory. It only moves forward,
/// and past its last line it yields lines without content.
pub struct LineCursor {
    lines: Vec<String>,
    position: usize,
}

impl LineCursor {
    /// The lines that are still to come.
    pub closed spec fn remaining(&self) -> Seq<Seq<char>> {
        if self.position <= self.lines@.len() {
            texts(self.lines@).skip(self.position as int)
        } else {
            Seq::empty()
        }
    }

    /// A cursor before the first of `lines`.
    pub fn new(lines: Vec<String>) -> (cursor: LineCursor)
        ensures
            cursor.remaining() == texts(lines@),
    {
        let cursor = LineCursor { lines, position: 0 };
        assert(cursor.remaining() =~= texts(lines@));
        cursor
    }

    /// How many lines are still to come.
    pub fn lines_left(&self) -> (n: usize)
        ensures
            n == self.remaining().len(),
    {
        if self.position <= self.lines.len() {
            self.lines.len() - self.position
        } else {
            0
        }
    }

    /// Pulls the next line and moves past it. At the end the line has no
    /// content and the cursor stays.
    pub fn next_line(&mut self) -> (line: String)
        ensures
            old(self).remaining().len() == 0 ==> line@.len() == 0 && final(self).remaining().len()
                == 0,
            old(self).remaining().len() > 0 ==> line@ == old(self).remaining()[0]
                && final(self).remaining() == old(self).remaining().drop_first(),
    {
        if self.position < self.lines.len() {
            let line = self.lines[self.position].clone();
            self.position = self.position + 1;
            assert(self.remaining() =~= old(self).remaining().drop_first());
            line
        } else {
            proof {
                reveal_strlit("");
            }
            String::from_str("")
        }
    }
}

impl VcfHandle {
    /// Pulls the next line from `cursor` and reads one record from it.
    pub fn read_next(&mut self, cursor: &mut LineCursor) -> (r: Result<VcfRecord, ReadError>)
        ensures
            final(self).spec_header() == old(self).spec_header(),
            old(cursor).remaining().len() == 0 ==> {
                &&& r matches Err(ReadError::EndOfStream)
                &&& final(cursor).remaining().len() == 0
                &&& final(self).spec_status() == after_line(
                    old(self).spec_status(),
                    LineEvent::End,
                )
            },
            old(cursor).remaining().len() > 0 ==> {
                let event = event_of(old(self).spec_header(), old(cursor).remaining()[0]);
                &&& final(cursor).remaining() == old(cursor).remaining().drop_first()
                &&& final(self).spec_status() == after_line(old(self).spec_status(), event)
                &&& match event {
                    LineEvent::End => r matches Err(ReadError::EndOfStream),
                    LineEvent::Good(record) => r matches Ok(read) && read@ == record,
                    LineEvent::Bad(detail) => r matches Err(ReadError::Decode(error))
                        && error.detail@ == detail,
                }
            },
    {
        let line = cursor.next_line();
        self.read_one(line.as_str())
    }

    /// Reads up to `count` records from `cursor`.
    ///
    /// Lines are pulled until `count` of them have decoded or the input has
    /// ended. If the input ends first, the records decoded so far are handed
    /// back. If any pulled line is rejected, the first rejection is handed
    /// back in place of all records. The cursor moves past the pulled lines.
    pub fn read_many(&mut self, cursor: &mut LineCursor, count: usize) -> (r: Result<
        Vec<VcfRecord>,
        DecodeError,
    >)
        ensures
            final(self).spec_header() == old(self).spec_header(),
            ({
                let events = events_of(old(self).spec_header(), old(cursor).remaining());
                let end = run(fresh(count as nat), events.push(LineEvent::End));
                &&& final(self).spec_status() == after_batch(old(self).spec_status(), end)
                &&& final(cursor).remaining() == old(cursor).remaining().skip(
                    pulled(fresh(count as nat), events) as int,
                )
                &&& pulled(fresh(count as nat), events) <= events.len()
                &&& match outcome(end) {
                    Ok(records) => r is Ok && record_views(r->Ok_0@) == records,
                    Err(detail) => r is Err && r->Err_0.detail@ == detail,
                }
                &&& r matches Ok(records) ==> records@.len() <= count && (records@.len() < count
                    ==> end.ended)
                &&& r is Err <==> meets_bad(fresh(count as nat), events.push(LineEvent::End))
            }),
    {
        let ghost lines = cursor.remaining();
        let ghost events = events_of(self.header, lines);
        let ghost start = fresh(count as nat);
        let mut batch = Batch::new(count);
        let ghost mut n: int = 0;
        proof {
            assert(events.take(0) =~= Seq::<LineEvent>::empty());
            assert(lines.skip(0) =~= lines);
        }
        while batch.wants_line() && cursor.lines_left() > 0
            invariant
                0 <= n <= lines.len(),
                events == events_of(self.header, lines),
                start == fresh(count as nat),
                cursor.remaining() == lines.skip(n),
                batch@ == run(start, events.take(n)),
                n == pulled(start, events.take(n)),
            decreases lines.len() - n,
        {
            let line = cursor.next_line();
            batch.offer(&self.header, line.as_str());
            proof {
                assert(lines.skip(n)[0] == lines[n]);
                assert(lines.skip(n).drop_first() =~= lines.skip(n + 1));
                assert(events.take(n + 1).drop_last() =~= events.take(n));
                assert(events.take(n + 1).last() == event_of(self.header, lines[n]));
                n = n + 1;
            }
        }
        proof {
            if n == lines.len() {
                assert(events.take(n) =~= events);
            } else {
                lemma_run_stops(start, events, n);
            }
            assert(events.push(LineEvent::End).drop_last() =~= events);
        }
        batch.offer(&self.header, "");
        proof {
            reveal_strlit("");
            if n < lines.len() {
                lemma_run_idle(run(start, events), seq![LineEvent::End]);
            }
        }
        proof {
            lemma_batch_law(count as nat, events.push(LineEvent::End));
        }
        self.finish_batch(batch)
    }
}

/// Why no handle could be made.
#[derive(Clone, Debug)]
pub enum OpenError {
    /// The input could not be opened or its header text could not be read.
    Io(IoFailure),
    /// The header text was read but is no valid header.
    Parse(HeaderError),
}

/// Makes a handle from the outcome of reading the header text off an input.
///
/// A failed read gives the class of its failure kind. A text that was read
/// gives a handle exactly when it parses as a header, and the parse failure
/// otherwise; the two kinds of failure are never mixed up.
pub fn open_with(read: Result<String, ErrorKind>) -> (r: Result<VcfHandle, OpenError>)
    ensures
        match read {
            Err(kind) => r matches Err(OpenError::Io(class)) && class == class_of(kind),
            Ok(text) => match header_outcome(text@) {
                Ok(engine) => r matches Ok(handle) && handle.spec_status() == Status::Opened
                    && handle.spec_header().engine() == engine,
                Err(cause) => r matches Err(OpenError::Parse(error)) && error.detail@
                    == parse_error_detail(header_error_text(cause)),
            },
        },
{
    match read {
        Err(kind) => Err(OpenError::Io(classify(kind))),
        Ok(text) => match VcfHandle::open(text.as_str()) {
            Ok(handle) => Ok(handle),
            Err(error) => Err(OpenError::Parse(error)),
        },
    }
}

} // verus!
