use vstd::prelude::*;

verus! {

/// Why a temperature lookup failed. Each kind carries the message of its origin.
#[derive(Debug)]
pub enum FetchError {
    /// The exchange failed below HTTP: connection, name lookup, TLS, timeout,
    /// or reading the body.
    Transport(String),
    /// The service answered with a status outside 200..=299.
    ApiStatus(String),
    /// The body is not the expected JSON shape.
    Parse(String),
}

impl FetchError {
    /// The message that the error carries.
    pub open spec fn message_view(&self) -> Seq<char> {
        match self {
            FetchError::Transport(m) => m@,
            FetchError::ApiStatus(m) => m@,
            FetchError::Parse(m) => m@,
        }
    }

    pub fn message(&self) -> (r: &String)
        ensures
            r@ == self.message_view(),
    {
        match self {
            FetchError::Transport(m) => m,
            FetchError::ApiStatus(m) => m,
            FetchError::Parse(m) => m,
        }
    }

    pub fn is_transport(&self) -> (r: bool)
        ensures
            r == (self is Transport),
    {
        matches!(self, FetchError::Transport(_))
    }

    pub fn is_api_status(&self) -> (r: bool)
        ensures
            r == (self is ApiStatus),
    {
        matches!(self, FetchError::ApiStatus(_))
    }

    pub fn is_parse(&self) -> (r: bool)
        ensures
            r == (self is Parse),
    {
        matches!(self, FetchError::Parse(_))
    }
}

} // verus!

verus! {

impl FetchError {
    /// Two errors of the same kind with the same message.
    pub open spec fn same_as(&self, other: &FetchError) -> bool {
        &&& (self is Transport) == (other is Transport)
        &&& (self is ApiStatus) == (other is ApiStatus)
        &&& (self is Parse) == (other is Parse)
        &&& self.message_view() == other.message_view()
    }
}

} // verus!
