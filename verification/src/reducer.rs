use vstd::prelude::*;

use crate::errors::SparkError;
use crate::frame::{frame_frag, Frame};
use crate::turn::{Role, Turn, TurnV};

verus! {

/// Whether a continuing fragment may be merged into the transcript: an
/// assistant turn was opened in this call and still stands last.
pub open spec fn can_merge(acc: bool, t: Seq<TurnV>) -> bool {
    acc && t.len() > 0 && t.last().role == Role::Assistant
}

/// The text accumulated so far: the open assistant turn's content, or nothing.
pub open spec fn current_text(acc: bool, t: Seq<TurnV>) -> Seq<char> {
    if can_merge(acc, t) {
        t.last().content
    } else {
        Seq::empty()
    }
}

/// How one well-formed frame (application code `0`) with status `status` and
/// fragment `frag` rewrites the transcript: an empty fragment changes
/// nothing; a continuing fragment (`status == 1`) extends the open assistant
/// turn; any other fragment opens a new assistant turn — also a continuing
/// one that arrives with no open turn, which tolerates servers that omit the
/// opening status.
pub open spec fn step_transcript(acc: bool, t: Seq<TurnV>, status: int, frag: Seq<char>) -> Seq<
    TurnV,
> {
    if frag.len() == 0 {
        t
    } else if status == 1 && can_merge(acc, t) {
        t.update(t.len() - 1, TurnV { role: Role::Assistant, content: t.last().content + frag })
    } else {
        t.push(TurnV { role: Role::Assistant, content: frag })
    }
}

/// Whether an assistant turn is open after the frame: a non-empty fragment
/// always leaves one open.
pub open spec fn step_acc(acc: bool, frag: Seq<char>) -> bool {
    if frag.len() == 0 {
        acc
    } else {
        true
    }
}

/// The text reported after the frame: the whole content accumulated so far,
/// not only the fragment.
pub open spec fn step_text(acc: bool, t: Seq<TurnV>, status: int, frag: Seq<char>) -> Seq<char> {
    if frag.len() == 0 {
        current_text(acc, t)
    } else if status == 1 && can_merge(acc, t) {
        t.last().content + frag
    } else {
        frag
    }
}

/// The per-call state of the response reducer: whether a frame of this call
/// has already opened an assistant turn.
pub struct Reducer {
    pub accumulating: bool,
}

impl Reducer {
    /// A reducer for a fresh call: no assistant turn is open.
    pub fn new() -> (r: Reducer)
        ensures
            !r.accumulating,
    {
        Reducer { accumulating: false }
    }

    fn current_text_exec(&self, history: &Vec<Turn>) -> (r: String)
        ensures
            r@ == current_text(self.accumulating, history.deep_view()),
    {
        if self.accumulating && history.len() > 0 && history[history.len() - 1].role
            == Role::Assistant {
            assert(history.deep_view().last() == history@[history@.len() - 1].deep_view());
            history[history.len() - 1].content.clone()
        } else {
            assert(!can_merge(self.accumulating, history.deep_view()));
            String::new()
        }
    }

    /// Applies one frame to the transcript.
    ///
    /// A frame with a non-zero application code reports that code and touches
    /// nothing. Any other frame rewrites the transcript as `step_transcript`
    /// states and reports the whole text accumulated so far; existing turns
    /// are never removed or reordered.
    pub fn apply(&mut self, history: &mut Vec<Turn>, frame: &Frame) -> (r: Result<
        String,
        SparkError,
    >)
        ensures
            frame.code != 0 ==> r == Err::<String, SparkError>(
                SparkError::RemoteApplicationError(frame.code),
            ) && final(history)@ == old(history)@ && *final(self) == *old(self),
            frame.code == 0 ==> (r matches Ok(text) && final(history).deep_view()
                == step_transcript(
                old(self).accumulating,
                old(history).deep_view(),
                frame.status as int,
                frame_frag(*frame),
            ) && final(self).accumulating == step_acc(old(self).accumulating, frame_frag(*frame))
                && text@ == step_text(
                old(self).accumulating,
                old(history).deep_view(),
                frame.status as int,
                frame_frag(*frame),
            )),
    {
        if frame.code != 0 {
            return Err(SparkError::RemoteApplicationError(frame.code));
        }
        match &frame.content {
            None => Ok(self.current_text_exec(history)),
            Some(frag) => {
                if frag.as_str().is_empty() {
                    Ok(self.current_text_exec(history))
                } else if frame.status == 1 && self.accumulating && history.len() > 0
                    && history[history.len() - 1].role == Role::Assistant {
                    assert(history.deep_view().last() == history@[history@.len() - 1].deep_view());
                    assert(can_merge(self.accumulating, history.deep_view()));
                    let mut last = history.pop().unwrap();
                    last.content.append(frag.as_str());
                    let text = last.content.clone();
                    history.push(last);
                    assert(final(history).deep_view() =~= step_transcript(
                        old(self).accumulating,
                        old(history).deep_view(),
                        frame.status as int,
                        frame_frag(*frame),
                    ));
                    Ok(text)
                } else {
                    assert(!(frame.status as int == 1 && can_merge(
                        self.accumulating,
                        history.deep_view(),
                    )));
                    history.push(Turn { role: Role::Assistant, content: frag.clone() });
                    self.accumulating = true;
                    assert(final(history).deep_view() =~= old(history).deep_view().push(
                        TurnV { role: Role::Assistant, content: frag@ },
                    ));
                    Ok(frag.clone())
                }
            },
        }
    }
}

/// Law: after one opening fragment `x` and two continuing fragments `a` then
/// `b`, the assistant turn holds exactly `x + a + b`, and each reported text
/// is a prefix of the next.
pub proof fn lemma_merge_accumulates(
    acc: bool,
    t: Seq<TurnV>,
    x: Seq<char>,
    a: Seq<char>,
    b: Seq<char>,
)
    requires
        x.len() > 0,
        a.len() > 0,
        b.len() > 0,
    ensures
        ({
            let t1 = step_transcript(acc, t, 0, x);
            let t2 = step_transcript(step_acc(acc, x), t1, 1, a);
            let t3 = step_transcript(step_acc(step_acc(acc, x), a), t2, 1, b);
            let r1 = step_text(acc, t, 0, x);
            let r2 = step_text(step_acc(acc, x), t1, 1, a);
            let r3 = step_text(step_acc(step_acc(acc, x), a), t2, 1, b);
            t3 == t.push(TurnV { role: Role::Assistant, content: x + a + b }) && r1 == x && r2 == x
                + a && r3 == x + a + b && r1.is_prefix_of(r2) && r2.is_prefix_of(r3)
        }),
{
    let t1 = step_transcript(acc, t, 0, x);
    let t2 = step_transcript(step_acc(acc, x), t1, 1, a);
    let t3 = step_transcript(step_acc(step_acc(acc, x), a), t2, 1, b);
    assert(t1 == t.push(TurnV { role: Role::Assistant, content: x }));
    assert(t1.last() == (TurnV { role: Role::Assistant, content: x }));
    assert(t2 =~= t.push(TurnV { role: Role::Assistant, content: x + a }));
    assert(t2.last() == (TurnV { role: Role::Assistant, content: x + a }));
    assert(t3 =~= t.push(TurnV { role: Role::Assistant, content: (x + a) + b }));
    assert((x + a) + b =~= x + a + b);
    assert(x =~= (x + a).subrange(0, x.len() as int));
    assert(x + a =~= (x + a + b).subrange(0, (x + a).len() as int));
}

/// Law: a continuing fragment that arrives with no open assistant turn opens
/// a new one — it is neither dropped nor an error.
pub proof fn lemma_continuing_without_first(t: Seq<TurnV>, frag: Seq<char>)
    requires
        frag.len() > 0,
    ensures
        step_transcript(false, t, 1, frag) == t.push(
            TurnV { role: Role::Assistant, content: frag },
        ),
        step_text(false, t, 1, frag) == frag,
        step_acc(false, frag),
{
}

/// Law: after any frame that carries a fragment, the transcript ends in an
/// assistant turn and an assistant turn is open.
pub proof fn lemma_fragment_leaves_assistant_last(
    acc: bool,
    t: Seq<TurnV>,
    status: int,
    frag: Seq<char>,
)
    requires
        frag.len() > 0,
    ensures
        step_transcript(acc, t, status, frag).last().role == Role::Assistant,
        step_transcript(acc, t, status, frag).len() > 0,
        step_acc(acc, frag),
{
}

/// Law: no frame ever removes or reorders the turns that already stand in the
/// transcript; at most the last one is extended, and only by appending.
pub proof fn lemma_step_never_drops(acc: bool, t: Seq<TurnV>, status: int, frag: Seq<char>)
    ensures
        ({
            let t2 = step_transcript(acc, t, status, frag);
            t.len() <= t2.len() <= t.len() + 1 && (forall|i: int|
                0 <= i < t.len() - 1 ==> t2[i] == t[i]) && (t.len() > 0 && t2.len() == t.len()
                ==> t[t.len() - 1].role == t2[t.len() - 1].role && t[t.len()
                - 1].content.is_prefix_of(t2[t.len() - 1].content)) && (t2.len() == t.len() + 1
                ==> forall|i: int| 0 <= i < t.len() ==> t2[i] == t[i])
        }),
{
    let t2 = step_transcript(acc, t, status, frag);
    if frag.len() == 0 {
        assert(t.len() > 0 ==> t[t.len() - 1].content.is_prefix_of(t2[t.len() - 1].content));
    } else if status == 1 && can_merge(acc, t) {
        assert(t[t.len() - 1].content =~= (t[t.len() - 1].content + frag).subrange(
            0,
            t[t.len() - 1].content.len() as int,
        ));
    }
}

} // verus!
