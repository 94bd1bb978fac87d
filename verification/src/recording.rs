//! A drawing backend that records instead of drawing.
//!
//! It keeps every primitive call it receives, in order, and can be told
//! to fail one call by its index. Tests use it to observe exactly which
//! calls a marker issues and how a marker reacts to a backend failure.

use crate::backend::{coords_as_ints, BackendCall, BackendCoord, DrawingBackend, LogEntry};
use crate::style::RGBColor;
use vstd::prelude::*;

verus! {

/// One recorded primitive call, in executable form.
#[derive(PartialEq, Eq, Debug)]
pub enum RecordedCall {
    Line { from: BackendCoord, to: BackendCoord, color: RGBColor },
    Polygon { vertices: Vec<BackendCoord>, color: RGBColor },
}

/// A recorded call together with the outcome reported for it.
#[derive(PartialEq, Eq, Debug)]
pub struct RecordedEntry {
    pub call: RecordedCall,
    pub ok: bool,
}

impl View for RecordedCall {
    type V = BackendCall;

    open spec fn view(&self) -> BackendCall {
        match self {
            RecordedCall::Line { from, to, color } => BackendCall::Line {
                from: (from.0 as int, from.1 as int),
                to: (to.0 as int, to.1 as int),
                color: *color,
            },
            RecordedCall::Polygon { vertices, color } => BackendCall::Polygon {
                vertices: coords_as_ints(vertices@),
                color: *color,
            },
        }
    }
}

impl View for RecordedEntry {
    type V = LogEntry;

    open spec fn view(&self) -> LogEntry {
        LogEntry { call: self.call@, ok: self.ok }
    }
}

/// The error the recording backend reports: the index of the call that
/// was made to fail.
#[derive(Clone, Copy, PartialEq, Eq, Structural, Debug)]
pub struct RecordingError {
    pub index: usize,
}

/// A backend that performs no output: it appends every call to `log`,
/// and reports failure for the call whose index is `fail_at`.
pub struct RecordingBackend {
    pub log: Vec<RecordedEntry>,
    pub fail_at: Option<usize>,
}

impl RecordingBackend {
    /// A recording backend on which every call succeeds.
    pub fn new() -> (r: Self)
        ensures
            r.calls() == Seq::<LogEntry>::empty(),
            r.fail_at is None,
    {
        let r = RecordingBackend { log: Vec::new(), fail_at: None };
        proof {
            assert(r.calls() =~= Seq::<LogEntry>::empty());
        }
        r
    }

    /// A recording backend whose call number `index`, counting from
    /// zero, fails; every other call succeeds.
    pub fn failing_at(index: usize) -> (r: Self)
        ensures
            r.calls() == Seq::<LogEntry>::empty(),
            r.fail_at == Some(index),
    {
        let r = RecordingBackend { log: Vec::new(), fail_at: Some(index) };
        proof {
            assert(r.calls() =~= Seq::<LogEntry>::empty());
        }
        r
    }

    fn record(&mut self, call: RecordedCall) -> (r: Result<(), RecordingError>)
        ensures
            final(self).calls() == old(self).calls().push((LogEntry { call: call@, ok: r is Ok })),
            r is Err ==> r == Err::<(), RecordingError>(
                RecordingError { index: old(self).log.len() },
            ),
    {
        let index: usize = self.log.len();
        let ok = match self.fail_at {
            Some(i) => index != i,
            None => true,
        };
        let ghost callv = call@;
        let entry = RecordedEntry { call, ok };
        self.log.push(entry);
        proof {
            let pre = old(self).calls();
            let post = self.calls();
            assert forall|i: int| 0 <= i < post.len() implies post[i] == pre.push(
                (LogEntry { call: callv, ok }),
            )[i] by {
                assert(self.log@[i] == if i < pre.len() {
                    old(self).log@[i]
                } else {
                    entry
                });
            }
            assert(post =~= pre.push((LogEntry { call: callv, ok })));
        }
        if ok {
            Ok(())
        } else {
            Err(RecordingError { index })
        }
    }
}

impl DrawingBackend for RecordingBackend {
    type ErrorType = RecordingError;

    open spec fn calls(&self) -> Seq<LogEntry> {
        self.log@.map_values(|e: RecordedEntry| e@)
    }

    fn draw_line(&mut self, from: BackendCoord, to: BackendCoord, color: RGBColor) -> (r: Result<
        (),
        RecordingError,
    >) {
        self.record(RecordedCall::Line { from, to, color })
    }

    fn fill_polygon(&mut self, vertices: &Vec<BackendCoord>, color: RGBColor) -> (r: Result<
        (),
        RecordingError,
    >) {
        let mut copy: Vec<BackendCoord> = Vec::new();
        let mut i: usize = 0;
        while i < vertices.len()
            invariant
                i <= vertices.len(),
                copy@ == vertices@.take(i as int),
            decreases vertices.len() - i,
        {
            copy.push(vertices[i]);
            proof {
                assert(copy@ =~= vertices@.take(i + 1));
            }
            i = i + 1;
        }
        proof {
            assert(copy@ =~= vertices@);
        }
        self.record(RecordedCall::Polygon { vertices: copy, color })
    }
}

} // verus!
