//! Spans of the trace file and the trace writer's error state.

use vstd::prelude::*;

verus! {

/// A span of the trace, named after the call it covers.
pub struct Span {
    name: &'static str,
}

impl Span {
    /// A span with the given name.
    pub fn named(name: &'static str) -> (r: Span)
        ensures
            r.spec_name() == name@,
    {
        Span { name }
    }

    /// The name of the span.
    pub closed spec fn spec_name(&self) -> Seq<char> {
        self.name@
    }

    /// The name of the span.
    pub fn name(&self) -> (r: &'static str)
        ensures
            r@ == self.spec_name(),
    {
        self.name
    }
}

/// Whether tracing works: an error when tracing was never started (`writer` is `None`), or when
/// the trace writer failed, with the writer's error message.
pub fn check_error(writer: Option<Result<(), String>>) -> (r: Result<(), String>)
    ensures
        match writer {
            None => r matches Err(e) && e@ == "instrumentation not started"@,
            Some(Ok(())) => r is Ok,
            Some(Err(e)) => r == Err::<(), String>(e),
        },
{
    match writer {
        None => Err(String::from_str("instrumentation not started")),
        Some(state) => state,
    }
}

} // verus!
