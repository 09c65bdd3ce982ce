//! The envelope in which every answer leaves the service.

use vstd::prelude::*;
use vstd::string::StringExecFns;

verus! {

/// The status of an answer that carries its payload.
pub const STATUS_OK: u16 = 200;

/// The status of an answer to a request that cannot be served as it was put.
pub const STATUS_BAD_REQUEST: u16 = 400;

/// An answer: either a payload, or a message that says why there is none,
/// together with an HTTP status.
#[derive(Clone, Debug, PartialEq, Eq)]
pub struct NecoResponse<T> {
    pub success: bool,
    pub status: u16,
    pub message: Option<String>,
    pub data: Option<T>,
}

/// What a `NecoResponse` holds, with strings as sequences of characters and
/// the payload by its own view.
pub struct NecoResponseView<V> {
    pub success: bool,
    pub status: u16,
    pub message: Option<Seq<char>>,
    pub data: Option<V>,
}

impl<V> NecoResponseView<V> {
    /// The answer that carries `data`.
    pub open spec fn ok(data: V) -> Self {
        NecoResponseView { success: true, status: STATUS_OK, message: None, data: Some(data) }
    }

    /// The answer that carries `message` under `status`, and no payload.
    pub open spec fn err(status: u16, message: Seq<char>) -> Self {
        NecoResponseView { success: false, status, message: Some(message), data: None }
    }

    /// Whether the answer is one of the two forms: a payload, no message and
    /// the status `STATUS_OK`, or a message and no payload.
    pub open spec fn well_formed(self) -> bool {
        if self.success {
            self.data is Some && self.message is None && self.status == STATUS_OK
        } else {
            self.data is None && self.message is Some
        }
    }

    /// Whether the answer blames the request: no payload, and a status from
    /// 400 up to 499.
    pub open spec fn is_client_error(self) -> bool {
        !self.success && 400 <= self.status < 500
    }
}

impl<T: View> View for NecoResponse<T> {
    type V = NecoResponseView<T::V>;

    open spec fn view(&self) -> NecoResponseView<T::V> {
        NecoResponseView {
            success: self.success,
            status: self.status,
            message: match self.message {
                Some(message) => Some(message@),
                None => None,
            },
            data: match self.data {
                Some(data) => Some(data@),
                None => None,
            },
        }
    }
}

impl<T: View> NecoResponse<T> {
    /// Wraps a payload as a successful answer.
    pub fn ok(data: T) -> (response: Self)
        ensures
            response@ == NecoResponseView::ok(data@),
            response@.well_formed(),
    {
        NecoResponse { success: true, status: STATUS_OK, message: None, data: Some(data) }
    }

    /// Builds the answer that reports a failure under the given status.
    pub fn err(status: u16, message: &str) -> (response: Self)
        ensures
            response@ == NecoResponseView::<T::V>::err(status, message@),
            response@.well_formed(),
    {
        NecoResponse {
            success: false,
            status,
            message: Some(String::from_str(message)),
            data: None,
        }
    }
}

} // verus!
