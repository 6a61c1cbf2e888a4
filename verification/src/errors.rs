use crate::util::push_bytes;
use vstd::prelude::*;

verus! {

/// The fixed taxonomy of failures: every handler or stage failure is one of
/// these kinds, and only the mapper below turns a kind into a transport
/// response.
#[derive(Debug)]
pub enum KeyValueError {
    /// A read or delete named a key the store does not hold.
    NotFound(Vec<u8>),
    /// The backing store could not be reached or answered with a protocol
    /// failure; the payload is its description.
    BackendError(Vec<u8>),
    /// The timeout stage cut the request off.
    TimedOut,
    /// The load-shedding stage turned the request away.
    Overloaded,
    /// The privileged sub-tree was entered without a valid bearer credential.
    Unauthorized,
}

/// The mathematical content of a `KeyValueError`.
pub enum ErrorModel {
    NotFound(Seq<u8>),
    BackendError(Seq<u8>),
    TimedOut,
    Overloaded,
    Unauthorized,
}

impl View for KeyValueError {
    type V = ErrorModel;

    open spec fn view(&self) -> ErrorModel {
        match self {
            KeyValueError::NotFound(k) => ErrorModel::NotFound(k@),
            KeyValueError::BackendError(c) => ErrorModel::BackendError(c@),
            KeyValueError::TimedOut => ErrorModel::TimedOut,
            KeyValueError::Overloaded => ErrorModel::Overloaded,
            KeyValueError::Unauthorized => ErrorModel::Unauthorized,
        }
    }
}

/// A transport response: a status code and a body of raw bytes.
pub struct Response {
    pub status: u16,
    pub body: Vec<u8>,
}

/// The mathematical content of a `Response`.
pub struct ResponseModel {
    pub status: u16,
    pub body: Seq<u8>,
}

impl View for Response {
    type V = ResponseModel;

    open spec fn view(&self) -> ResponseModel {
        ResponseModel { status: self.status, body: self.body@ }
    }
}

/// The canonical transport status of each error kind.
pub open spec fn spec_status_of(e: ErrorModel) -> u16 {
    match e {
        ErrorModel::NotFound(_) => 404,
        ErrorModel::BackendError(_) => 500,
        ErrorModel::TimedOut => 408,
        ErrorModel::Overloaded => 503,
        ErrorModel::Unauthorized => 401,
    }
}

pub open spec fn spec_not_found_prefix() -> Seq<u8> {
    seq![
        'U' as u8, 'n' as u8, 'a' as u8, 'b' as u8, 'l' as u8, 'e' as u8, ' ' as u8, 't' as u8,
        'o' as u8, ' ' as u8, 'f' as u8, 'i' as u8, 'n' as u8, 'd' as u8, ' ' as u8, 'k' as u8,
        'e' as u8, 'y' as u8, ' ' as u8, '\'' as u8,
    ]
}

pub open spec fn spec_backend_prefix() -> Seq<u8> {
    seq![
        'U' as u8, 'n' as u8, 'a' as u8, 'b' as u8, 'l' as u8, 'e' as u8, ' ' as u8, 't' as u8,
        'o' as u8, ' ' as u8, 'p' as u8, 'e' as u8, 'r' as u8, 'f' as u8, 'o' as u8, 'r' as u8,
        'm' as u8, ' ' as u8, 'b' as u8, 'a' as u8, 'c' as u8, 'k' as u8, 'e' as u8, 'n' as u8,
        'd' as u8, ' ' as u8, 'o' as u8, 'p' as u8, 'e' as u8, 'r' as u8, 'a' as u8, 't' as u8,
        'i' as u8, 'o' as u8, 'n' as u8, ':' as u8, ' ' as u8,
    ]
}

pub open spec fn spec_timed_out_message() -> Seq<u8> {
    seq![
        'r' as u8, 'e' as u8, 'q' as u8, 'u' as u8, 'e' as u8, 's' as u8, 't' as u8, ' ' as u8,
        't' as u8, 'i' as u8, 'm' as u8, 'e' as u8, 'd' as u8, ' ' as u8, 'o' as u8, 'u' as u8,
        't' as u8,
    ]
}

pub open spec fn spec_overloaded_message() -> Seq<u8> {
    seq![
        's' as u8, 'e' as u8, 'r' as u8, 'v' as u8, 'i' as u8, 'c' as u8, 'e' as u8, ' ' as u8,
        'i' as u8, 's' as u8, ' ' as u8, 'o' as u8, 'v' as u8, 'e' as u8, 'r' as u8, 'l' as u8,
        'o' as u8, 'a' as u8, 'd' as u8, 'e' as u8, 'd' as u8, ',' as u8, ' ' as u8, 't' as u8,
        'r' as u8, 'y' as u8, ' ' as u8, 'a' as u8, 'g' as u8, 'a' as u8, 'i' as u8, 'n' as u8,
        ' ' as u8, 'l' as u8, 'a' as u8, 't' as u8, 'e' as u8, 'r' as u8,
    ]
}

/// The canonical message template of each error kind. The privileged-route
/// rejection carries no body, as the authorization stage answers before any
/// handler runs.
pub open spec fn spec_message_of(e: ErrorModel) -> Seq<u8> {
    match e {
        ErrorModel::NotFound(k) => spec_not_found_prefix() + k + seq!['\'' as u8, '.' as u8],
        ErrorModel::BackendError(c) => spec_backend_prefix() + c + seq!['.' as u8],
        ErrorModel::TimedOut => spec_timed_out_message(),
        ErrorModel::Overloaded => spec_overloaded_message(),
        ErrorModel::Unauthorized => Seq::empty(),
    }
}

/// The one response that the mapper renders for an error kind.
pub open spec fn spec_error_response(e: ErrorModel) -> ResponseModel {
    ResponseModel { status: spec_status_of(e), body: spec_message_of(e) }
}

impl KeyValueError {
    /// The canonical transport status of this error kind.
    pub fn status_code(&self) -> (s: u16)
        ensures
            s == spec_status_of(self@),
    {
        match self {
            KeyValueError::NotFound(_) => 404,
            KeyValueError::BackendError(_) => 500,
            KeyValueError::TimedOut => 408,
            KeyValueError::Overloaded => 503,
            KeyValueError::Unauthorized => 401,
        }
    }

    /// The canonical human-readable message of this error kind.
    pub fn message(&self) -> (m: Vec<u8>)
        ensures
            m@ == spec_message_of(self@),
    {
        match self {
            KeyValueError::NotFound(k) => {
                let mut m: Vec<u8> = vec![
                    'U' as u8, 'n' as u8, 'a' as u8, 'b' as u8, 'l' as u8, 'e' as u8, ' ' as u8,
                    't' as u8, 'o' as u8, ' ' as u8, 'f' as u8, 'i' as u8, 'n' as u8, 'd' as u8,
                    ' ' as u8, 'k' as u8, 'e' as u8, 'y' as u8, ' ' as u8, '\'' as u8,
                ];
                proof {
                    assert(m@ =~= spec_not_found_prefix());
                }
                push_bytes(&mut m, k);
                m.push('\'' as u8);
                m.push('.' as u8);
                proof {
                    assert(m@ =~= spec_message_of(self@));
                }
                m
            },
            KeyValueError::BackendError(c) => {
                let mut m: Vec<u8> = vec![
                    'U' as u8, 'n' as u8, 'a' as u8, 'b' as u8, 'l' as u8, 'e' as u8, ' ' as u8,
                    't' as u8, 'o' as u8, ' ' as u8, 'p' as u8, 'e' as u8, 'r' as u8, 'f' as u8,
                    'o' as u8, 'r' as u8, 'm' as u8, ' ' as u8, 'b' as u8, 'a' as u8, 'c' as u8,
                    'k' as u8, 'e' as u8, 'n' as u8, 'd' as u8, ' ' as u8, 'o' as u8, 'p' as u8,
                    'e' as u8, 'r' as u8, 'a' as u8, 't' as u8, 'i' as u8, 'o' as u8, 'n' as u8,
                    ':' as u8, ' ' as u8,
                ];
                proof {
                    assert(m@ =~= spec_backend_prefix());
                }
                push_bytes(&mut m, c);
                m.push('.' as u8);
                proof {
                    assert(m@ =~= spec_message_of(self@));
                }
                m
            },
            KeyValueError::TimedOut => {
                let m: Vec<u8> = vec![
                    'r' as u8, 'e' as u8, 'q' as u8, 'u' as u8, 'e' as u8, 's' as u8, 't' as u8,
                    ' ' as u8, 't' as u8, 'i' as u8, 'm' as u8, 'e' as u8, 'd' as u8, ' ' as u8,
                    'o' as u8, 'u' as u8, 't' as u8,
                ];
                proof {
                    assert(m@ =~= spec_timed_out_message());
                }
                m
            },
            KeyValueError::Overloaded => {
                let m: Vec<u8> = vec![
                    's' as u8, 'e' as u8, 'r' as u8, 'v' as u8, 'i' as u8, 'c' as u8, 'e' as u8,
                    ' ' as u8, 'i' as u8, 's' as u8, ' ' as u8, 'o' as u8, 'v' as u8, 'e' as u8,
                    'r' as u8, 'l' as u8, 'o' as u8, 'a' as u8, 'd' as u8, 'e' as u8, 'd' as u8,
                    ',' as u8, ' ' as u8, 't' as u8, 'r' as u8, 'y' as u8, ' ' as u8, 'a' as u8,
                    'g' as u8, 'a' as u8, 'i' as u8, 'n' as u8, ' ' as u8, 'l' as u8, 'a' as u8,
                    't' as u8, 'e' as u8, 'r' as u8,
                ];
                proof {
                    assert(m@ =~= spec_overloaded_message());
                }
                m
            },
            KeyValueError::Unauthorized => Vec::new(),
        }
    }

    /// The mapper: the single place where an error kind becomes a transport
    /// response, pairing its canonical status with its canonical message.
    pub fn into_response(self) -> (r: Response)
        ensures
            r@ == spec_error_response(self@),
    {
        let status = self.status_code();
        let body = self.message();
        Response { status, body }
    }
}

} // verus!
