//! The drawing-backend capability and the ghost model of its use.
//!
//! A backend offers two primitives: draw a line segment and fill a
//! polygon, both in a given color. Each backend carries a ghost log of
//! every primitive call it has received, together with whether that call
//! succeeded; the markers' `draw` contracts are stated over this log.

use crate::style::RGBColor;
use vstd::prelude::*;

verus! {

/// A device coordinate: an integer pixel position, projection already done.
pub type BackendCoord = (i32, i32);

/// One backend primitive call, in ghost form: coordinates widened to
/// mathematical integers.
pub enum BackendCall {
    Line { from: (int, int), to: (int, int), color: RGBColor },
    Polygon { vertices: Seq<(int, int)>, color: RGBColor },
}

/// One entry of a backend's ghost log: the call it received and whether
/// the backend reported success for it.
pub struct LogEntry {
    pub call: BackendCall,
    pub ok: bool,
}

/// A device-coordinate sequence widened to mathematical integers.
pub open spec fn coords_as_ints(s: Seq<BackendCoord>) -> Seq<(int, int)> {
    s.map_values(|p: BackendCoord| (p.0 as int, p.1 as int))
}

/// The capability a drawing surface exposes to the markers. Every call is
/// appended to the ghost log exactly once, whether or not it succeeds;
/// which calls fail is the backend's own affair.
pub trait DrawingBackend: Sized {
    /// The backend's error value, opaque to the markers.
    type ErrorType;

    /// The ghost log of every primitive call received so far, oldest first.
    spec fn calls(&self) -> Seq<LogEntry>;

    /// Draw a line segment between two device points.
    fn draw_line(&mut self, from: BackendCoord, to: BackendCoord, color: RGBColor) -> (r: Result<
        (),
        Self::ErrorType,
    >)
        ensures
            final(self).calls() == old(self).calls().push(
                (LogEntry {
                    call: (BackendCall::Line {
                        from: (from.0 as int, from.1 as int),
                        to: (to.0 as int, to.1 as int),
                        color,
                    }),
                    ok: r is Ok,
                }),
            ),
    ;

    /// Fill the polygon with the given device vertices.
    fn fill_polygon(&mut self, vertices: &Vec<BackendCoord>, color: RGBColor) -> (r: Result<
        (),
        Self::ErrorType,
    >)
        ensures
            final(self).calls() == old(self).calls().push(
                (LogEntry {
                    call: (BackendCall::Polygon { vertices: coords_as_ints(vertices@), color }),
                    ok: r is Ok,
                }),
            ),
    ;
}

/// How one `draw` invocation may extend a backend log `pre` into `post`,
/// given the calls `planned` for it: the planned calls are issued in
/// order; the first failure, if any, ends the invocation at once; `ok`
/// says whether every planned call was issued and succeeded.
pub open spec fn issues(
    pre: Seq<LogEntry>,
    post: Seq<LogEntry>,
    planned: Seq<BackendCall>,
    ok: bool,
) -> bool {
    let n: int = post.len() - pre.len();
    &&& pre.len() <= post.len()
    &&& post.take(pre.len() as int) == pre
    &&& n <= planned.len()
    &&& (forall|i: int|
        pre.len() <= i < post.len() ==> #[trigger] post[i].call == planned[i - pre.len()])
    &&& (forall|i: int| pre.len() <= i < post.len() - 1 ==> #[trigger] post[i].ok)
    &&& (ok <==> n == planned.len() && (n == 0 || post.last().ok))
    &&& (n < planned.len() ==> n > 0 && !post.last().ok)
}

/// Law: a draw that plans no backend calls leaves the log unchanged and
/// succeeds. In particular, a marker given zero points issues zero
/// backend calls and returns success.
pub proof fn lemma_no_plan_no_calls(pre: Seq<LogEntry>, post: Seq<LogEntry>, ok: bool)
    requires
        issues(pre, post, Seq::<BackendCall>::empty(), ok),
    ensures
        post == pre,
        ok,
{
    assert(post.len() == pre.len());
    assert(post.take(pre.len() as int) =~= post);
}

/// Law: a draw that succeeds has issued every planned call, in order,
/// and each one succeeded.
pub proof fn lemma_success_issues_all(
    pre: Seq<LogEntry>,
    post: Seq<LogEntry>,
    planned: Seq<BackendCall>,
)
    requires
        issues(pre, post, planned, true),
    ensures
        post == pre + planned.map_values(|c: BackendCall| LogEntry { call: c, ok: true }),
{
    let tail = planned.map_values(|c: BackendCall| LogEntry { call: c, ok: true });
    assert forall|i: int| 0 <= i < planned.len() implies post[pre.len() + i]
        == tail[i] by {
        let j: int = pre.len() + i;
        assert(post[j].call == planned[j - pre.len()]);
        if i < planned.len() - 1 {
            assert(post[j].ok);
        } else {
            assert(post.last().ok);
            assert(post[j].ok);
        }
        assert(tail[i] == (LogEntry { call: planned[i], ok: true }));
    }
    assert(post =~= pre + tail);
}

/// Law: the first failed call ends the draw: nothing is issued after it,
/// and the draw reports failure.
pub proof fn lemma_failure_stops(
    pre: Seq<LogEntry>,
    post: Seq<LogEntry>,
    planned: Seq<BackendCall>,
    ok: bool,
    i: int,
)
    requires
        issues(pre, post, planned, ok),
        pre.len() <= i < post.len(),
        !post[i].ok,
    ensures
        i == post.len() - 1,
        !ok,
{
    if i < post.len() - 1 {
        assert(post[i].ok);
    }
}

pub(crate) proof fn lemma_issues_zero(pre: Seq<LogEntry>)
    ensures
        issues(pre, pre, Seq::<BackendCall>::empty(), true),
{
    assert(pre.take(pre.len() as int) =~= pre);
}

pub(crate) proof fn lemma_issues_one(pre: Seq<LogEntry>, call: BackendCall, ok: bool)
    ensures
        issues(pre, pre.push(LogEntry { call, ok }), seq![call], ok),
{
    let post = pre.push(LogEntry { call, ok });
    assert(post.take(pre.len() as int) =~= pre);
    assert(post[pre.len() as int + 0].call == call);
    assert(post.last().ok == ok);
}

pub(crate) proof fn lemma_issues_two_stop(pre: Seq<LogEntry>, c1: BackendCall, c2: BackendCall)
    ensures
        issues(pre, pre.push(LogEntry { call: c1, ok: false }), seq![c1, c2], false),
{
    let post = pre.push(LogEntry { call: c1, ok: false });
    assert(post.take(pre.len() as int) =~= pre);
    assert(post[pre.len() as int + 0].call == c1);
    assert(!post.last().ok);
}

pub(crate) proof fn lemma_issues_two(pre: Seq<LogEntry>, c1: BackendCall, c2: BackendCall, ok2: bool)
    ensures
        issues(
            pre,
            pre.push(LogEntry { call: c1, ok: true }).push(LogEntry { call: c2, ok: ok2 }),
            seq![c1, c2],
            ok2,
        ),
{
    let post = pre.push(LogEntry { call: c1, ok: true }).push(LogEntry { call: c2, ok: ok2 });
    assert(post.take(pre.len() as int) =~= pre);
    assert(post[pre.len() as int + 0] == (LogEntry { call: c1, ok: true }));
    assert(post[pre.len() as int + 1] == (LogEntry { call: c2, ok: ok2 }));
    assert(post.last().ok == ok2);
}

} // verus!
