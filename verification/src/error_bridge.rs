//! Unification of the native error domains into one boundary-safe failure
//! representation.
//!
//! Every failure that reaches the boundary is rendered as a list of log
//! lines (the message, then each cause on a line of its own, then a captured
//! backtrace if there is one) and converted to the calling convention's
//! failure sentinel for the operation's return shape.  The conversion is
//! total: no failure kind falls through without a sentinel, so no failure
//! ever crosses the boundary as a native unwind.

use vstd::prelude::*;

verus! {

/// The closed taxonomy of failure kinds crossing the boundary.
///
/// `Initialization` marks a contract mismatch found while resolving foreign
/// handles; it is fatal by design and aborts startup before any entry point
/// runs.  Every other kind is caught at the entry-point boundary and
/// converted to a sentinel.
#[derive(Clone, Copy, PartialEq, Eq, Structural, Debug)]
pub enum BoundaryErrorKind {
    /// Foreign class, method, or object resolution failed at startup.
    Initialization,
    /// A value failed to marshal across the boundary, such as a malformed
    /// version string.
    Conversion,
    /// The business-logic collaborator reported a failure.
    Domain,
    /// The host runtime itself rejected a call mid-operation.
    ForeignCall,
    /// A filesystem operation failed.
    Io,
}

/// A failure travelling toward the boundary: its kind, a message, the chain
/// of causes beneath it, and a backtrace if the runtime captured one.
///
/// Created at the point a collaborator call fails and consumed exactly once
/// by [`report_and_convert`].
#[derive(Debug)]
pub struct BoundaryError {
    pub kind: BoundaryErrorKind,
    pub message: String,
    pub causes: Vec<String>,
    pub backtrace: Option<String>,
}

/// The return shape of an entry point, which picks the failure sentinel.
#[derive(Clone, Copy, PartialEq, Eq, Structural, Debug)]
pub enum ReturnShape {
    Object,
    Array,
    Text,
}

/// The designated "operation failed" value for one return shape: a null
/// object, array, or string reference returned normally to the host runtime.
#[derive(Clone, Copy, PartialEq, Eq, Structural, Debug)]
pub enum SentinelValue {
    NullObject,
    NullArray,
    NullText,
}

/// The sentinel each return shape converts a failure to.
pub open spec fn spec_sentinel(shape: ReturnShape) -> SentinelValue {
    match shape {
        ReturnShape::Object => SentinelValue::NullObject,
        ReturnShape::Array => SentinelValue::NullArray,
        ReturnShape::Text => SentinelValue::NullText,
    }
}

/// The first diagnostic line: the failure's own message.
pub open spec fn spec_error_line(message: Seq<char>) -> Seq<char> {
    "error: "@ + message
}

/// One diagnostic line per cause in the chain.
pub open spec fn spec_cause_line(cause: Seq<char>) -> Seq<char> {
    "caused by: "@ + cause
}

/// The final diagnostic line when a backtrace was captured.
pub open spec fn spec_backtrace_line(backtrace: Seq<char>) -> Seq<char> {
    "backtrace: "@ + backtrace
}

/// Everything the error bridge logs for one failure: the message line, the
/// full cause chain in order, then the backtrace if one was captured.
pub open spec fn spec_log_lines(e: BoundaryError) -> Seq<Seq<char>> {
    seq![spec_error_line(e.message@)] + e.causes@.map_values(|c: String| spec_cause_line(c@))
        + (match e.backtrace {
        Some(b) => seq![spec_backtrace_line(b@)],
        None => Seq::<Seq<char>>::empty(),
    })
}

/// The character sequences of a list of built strings.
pub open spec fn spec_views_of(lines: Seq<String>) -> Seq<Seq<char>> {
    lines.map_values(|s: String| s@)
}

proof fn lemma_views_of_push(lines: Seq<String>, x: String)
    ensures
        spec_views_of(lines.push(x)) =~= spec_views_of(lines).push(x@),
{
}

/// Whether two failures carry the same kind and render to the same
/// diagnostic lines.
pub open spec fn same_diagnostic(a: BoundaryError, b: BoundaryError) -> bool {
    a.kind == b.kind && spec_log_lines(a) == spec_log_lines(b)
}

impl BoundaryError {
    /// A failure of the given kind with no causes beneath it.
    pub fn new(kind: BoundaryErrorKind, message: String) -> (e: BoundaryError)
        ensures
            e.kind == kind,
            e.message == message,
            e.causes@ =~= Seq::<String>::empty(),
            e.backtrace is None,
    {
        BoundaryError { kind, message, causes: Vec::new(), backtrace: None }
    }

    /// The same failure with one more cause appended to its chain.
    pub fn with_cause(self, cause: String) -> (e: BoundaryError)
        ensures
            e.kind == self.kind,
            e.message == self.message,
            e.causes@ =~= self.causes@.push(cause),
            e.backtrace == self.backtrace,
    {
        let mut causes = self.causes;
        causes.push(cause);
        BoundaryError { kind: self.kind, message: self.message, causes, backtrace: self.backtrace }
    }

    /// A failure with the same kind and the same diagnostic rendering,
    /// built without consuming this one.
    pub fn duplicate(&self) -> (r: BoundaryError)
        ensures
            same_diagnostic(r, *self),
            r.kind == self.kind,
    {
        let message = self.message.clone();
        let mut causes: Vec<String> = Vec::new();
        let mut i: usize = 0;
        while i < self.causes.len()
            invariant
                i <= self.causes@.len(),
                causes@.len() == i,
                spec_views_of(causes@) =~~= spec_views_of(self.causes@.subrange(0, i as int)),
            decreases self.causes@.len() - i,
        {
            let ghost prev = causes@;
            let next = self.causes[i].clone();
            proof {
                lemma_views_of_push(prev, next);
                lemma_views_of_push(self.causes@.subrange(0, i as int), self.causes@[i as int]);
                assert(self.causes@.subrange(0, i + 1 as int) =~= self.causes@.subrange(
                    0,
                    i as int,
                ).push(self.causes@[i as int]));
            }
            causes.push(next);
            i += 1;
        }
        proof {
            assert(self.causes@.subrange(0, self.causes@.len() as int) =~= self.causes@);
        }
        let backtrace = match &self.backtrace {
            Some(b) => Some(b.clone()),
            None => None,
        };
        let r = BoundaryError { kind: self.kind, message, causes, backtrace };
        proof {
            assert forall|j: int| 0 <= j < causes@.len() implies causes@[j]@
                == self.causes@[j]@ by {
                assert(spec_views_of(causes@)[j] == causes@[j]@);
                assert(spec_views_of(self.causes@)[j] == self.causes@[j]@);
            }
            assert(spec_log_lines(r) =~~= spec_log_lines(*self));
        }
        r
    }

    /// The same failure carrying a captured backtrace.
    pub fn with_backtrace(self, backtrace: String) -> (e: BoundaryError)
        ensures
            e.kind == self.kind,
            e.message == self.message,
            e.causes == self.causes,
            e.backtrace == Some(backtrace),
    {
        BoundaryError {
            kind: self.kind,
            message: self.message,
            causes: self.causes,
            backtrace: Some(backtrace),
        }
    }
}

/// One diagnostic line: a fixed prefix followed by the given text.
fn line_with_prefix(prefix: &str, text: &str) -> (r: String)
    ensures
        r@ == prefix@ + text@,
{
    let mut line = prefix.to_owned();
    line.append(text);
    line
}

/// Error Bridge: renders the failure's full diagnostic (message, cause
/// chain, backtrace) and converts the failure to the sentinel of the
/// operation's return shape.  Total over every failure kind and shape, and
/// always yields at least one logged line.
pub fn report_and_convert(e: &BoundaryError, shape: ReturnShape) -> (r: (Vec<String>, SentinelValue))
    ensures
        spec_views_of(r.0@) == spec_log_lines(*e),
        r.0@.len() >= 1,
        r.1 == spec_sentinel(shape),
{
    let mut lines: Vec<String> = Vec::new();
    let first = line_with_prefix("error: ", e.message.as_str());
    proof {
        lemma_views_of_push(lines@, first);
    }
    lines.push(first);
    let mut i: usize = 0;
    while i < e.causes.len()
        invariant
            i <= e.causes@.len(),
            lines@.len() == 1 + i,
            spec_views_of(lines@) =~~= seq![spec_error_line(e.message@)] + e.causes@.subrange(
                0,
                i as int,
            ).map_values(|c: String| spec_cause_line(c@)),
        decreases e.causes@.len() - i,
    {
        let ghost prev = lines@;
        let next = line_with_prefix("caused by: ", e.causes[i].as_str());
        proof {
            lemma_views_of_push(prev, next);
        }
        lines.push(next);
        proof {
            assert(e.causes@.subrange(0, i + 1 as int) =~= e.causes@.subrange(0, i as int).push(
                e.causes@[i as int],
            ));
            assert(spec_views_of(lines@) =~~= seq![spec_error_line(e.message@)]
                + e.causes@.subrange(0, i + 1 as int).map_values(|c: String| spec_cause_line(c@)));
        }
        i += 1;
    }
    proof {
        assert(e.causes@.subrange(0, e.causes@.len() as int) =~= e.causes@);
    }
    if let Some(b) = &e.backtrace {
        let ghost prev = lines@;
        let last = line_with_prefix("backtrace: ", b.as_str());
        proof {
            lemma_views_of_push(prev, last);
        }
        lines.push(last);
    }
    proof {
        assert(spec_views_of(lines@) =~~= spec_log_lines(*e));
    }
    let sentinel = match shape {
        ReturnShape::Object => SentinelValue::NullObject,
        ReturnShape::Array => SentinelValue::NullArray,
        ReturnShape::Text => SentinelValue::NullText,
    };
    (lines, sentinel)
}

/// Error-sentinel totality: every failure, whatever its kind, renders to at
/// least one logged line, the first of which carries its message, and every
/// return shape has a defined sentinel.
pub proof fn lemma_error_bridge_total(e: BoundaryError, shape: ReturnShape)
    ensures
        spec_log_lines(e).len() >= 1,
        spec_log_lines(e)[0] == spec_error_line(e.message@),
        spec_sentinel(shape) == (match shape {
            ReturnShape::Object => SentinelValue::NullObject,
            ReturnShape::Array => SentinelValue::NullArray,
            ReturnShape::Text => SentinelValue::NullText,
        }),
{
}

} // verus!
