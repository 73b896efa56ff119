use vstd::prelude::*;

verus! {

/// An identifier that is either a non-negative integer or an opaque string.
#[derive(Debug, PartialEq, Eq, Hash)]
pub enum NumberOrString {
    Number(u32),
    String(String),
}

/// Correlates a request with its eventual response.
pub type RequestId = NumberOrString;

/// Correlates a sequence of progress notifications with the request they report on.
#[derive(Debug, PartialEq, Eq, Hash)]
pub struct ProgressToken(pub NumberOrString);

/// The canonical "abandon request X" payload.
#[derive(Debug, PartialEq, Eq)]
pub struct CancelledNotification {
    pub request_id: RequestId,
    pub reason: Option<String>,
}

impl View for NumberOrString {
    /// The number, or the characters of the string; never both.
    type V = (Option<u32>, Seq<char>);

    open spec fn view(&self) -> (Option<u32>, Seq<char>) {
        match self {
            NumberOrString::Number(n) => (Some(*n), Seq::empty()),
            NumberOrString::String(s) => (None, s@),
        }
    }
}

impl NumberOrString {
    /// Whether the two identifiers name the same request.
    pub fn same_as(&self, other: &NumberOrString) -> (r: bool)
        ensures
            r == (self@ == other@),
    {
        match (self, other) {
            (NumberOrString::Number(a), NumberOrString::Number(b)) => *a == *b,
            (NumberOrString::String(a), NumberOrString::String(b)) => *a == *b,
            _ => false,
        }
    }
}

impl Clone for NumberOrString {
    fn clone(&self) -> (r: Self)
        ensures
            r == *self,
    {
        match self {
            NumberOrString::Number(n) => NumberOrString::Number(*n),
            NumberOrString::String(s) => NumberOrString::String(s.clone()),
        }
    }
}

impl Clone for ProgressToken {
    fn clone(&self) -> (r: Self)
        ensures
            r == *self,
    {
        ProgressToken(self.0.clone())
    }
}

impl Clone for CancelledNotification {
    fn clone(&self) -> (r: Self)
        ensures
            r == *self,
    {
        let reason = match &self.reason {
            Some(s) => Some(s.clone()),
            None => None,
        };
        CancelledNotification { request_id: self.request_id.clone(), reason }
    }
}

impl CancelledNotification {
    /// The cancellation of request `request_id`, with an optional reason.
    pub fn new(request_id: RequestId, reason: Option<String>) -> (r: Self)
        ensures
            r.request_id == request_id,
            r.reason == reason,
    {
        CancelledNotification { request_id, reason }
    }
}

} // verus!
