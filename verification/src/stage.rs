//! The scaling stage: recompute the `weight` signal of a cloned context and
//! hand the result to an injected successor stage.

use vstd::prelude::*;
use vstd::string::StrSliceExecFns;

use crate::context::Context;

verus! {

/// The one error kind a stage can surface: a failure signalled by the
/// successor stage, carried through unchanged.
#[derive(Debug)]
pub struct Error {
    /// What the successor reported.
    pub message: String,
}

impl Error {
    /// Wraps a successor's report.
    pub fn new(message: String) -> (r: Error)
        ensures
            r.message == message,
    {
        Error { message }
    }
}

/// Whether the text contains a literal question-mark character.
pub open spec fn has_question_mark(text: Seq<char>) -> bool {
    exists|i: int| 0 <= i < text.len() && text[i] == '?'
}

/// The weight the scaling stage assigns: the post's engagement count when
/// its text contains a question mark, and the no-signal value `-1` when it
/// does not or when there is no post at all.
pub open spec fn scaled_weight(c: Context) -> i64 {
    match c.post {
        Some(p) => if has_question_mark(p.text@) {
            p.likes
        } else {
            (-1) as i64
        },
        None => (-1) as i64,
    }
}

/// A context after scaling: the post is untouched, the weight recomputed.
pub open spec fn scaled(c: Context) -> Context {
    Context { post: c.post, weight: scaled_weight(c) }
}

/// What the scaling stage forwards to its successor: the scaled copy of the
/// context it was given, or nothing when it was given nothing.
pub open spec fn forwarded(ctx: Option<&Context>) -> Option<Context> {
    match ctx {
        Some(c) => Some(scaled(*c)),
        None => None,
    }
}

/// Scaling is idempotent: the weight is a pure function of the post alone,
/// and scaling leaves the post untouched, so scaling an already-scaled
/// context changes nothing.
pub proof fn lemma_scaling_idempotent(c: Context)
    ensures
        scaled(scaled(c)) == scaled(c),
{
}

/// Scans the text for a literal question mark.
pub fn text_has_question_mark(text: &str) -> (b: bool)
    ensures
        b == has_question_mark(text@),
{
    let n: usize = text.unicode_len();
    let mut i: usize = 0;
    while i < n
        invariant
            n == text@.len(),
            i <= n,
            forall|j: int| 0 <= j < i ==> text@[j] != '?',
        decreases n - i,
    {
        if text.get_char(i) == '?' {
            assert(text@[i as int] == '?');
            return true;
        }
        i = i + 1;
    }
    false
}

/// The scaling computation on one context: an independent copy of `c` whose
/// weight is the post's likes when the post's text contains a question mark,
/// and `-1` otherwise or when there is no post. The input is only read.
pub fn scale_context(c: &Context) -> (r: Context)
    ensures
        r == scaled(*c),
        r.post == c.post,
        c.post matches Some(p) ==> (has_question_mark(p.text@) ==> r.weight == p.likes),
        c.post matches Some(p) ==> (!has_question_mark(p.text@) ==> r.weight == -1),
        c.post is None ==> r.weight == -1,
{
    let weight: i64 = match &c.post {
        Some(p) => if text_has_question_mark(p.text.as_str()) {
            p.likes
        } else {
            -1
        },
        None => -1,
    };
    let mut r = c.duplicate();
    r.weight = weight;
    r
}

/// The scaling stage. Given an optional scoring context, it scales an
/// independent copy (the caller's context is only read, never mutated),
/// calls the successor stage `next` exactly once with the copy — or with
/// `None` when it was given `None` — and returns the successor's result
/// unchanged, error or not.
pub fn scale<F: FnOnce(Option<Context>) -> Result<Option<Context>, Error>>(
    ctx: Option<&Context>,
    next: F,
) -> (r: Result<Option<Context>, Error>)
    requires
        forall|x: Option<Context>| call_requires(next, (x,)),
    ensures
        call_ensures(next, (forwarded(ctx),), r),
        ctx is None ==> call_ensures(next, (None,), r),
{
    let fwd: Option<Context> = match ctx {
        Some(c) => Some(scale_context(c)),
        None => None,
    };
    next(fwd)
}

} // verus!
