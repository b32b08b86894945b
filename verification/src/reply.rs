//! What comes back, and what it means.
//!
//! Every operation is one round trip. Its outcome is a `Result`: the
//! [`Response`] that arrived, or the transport's error. A read decodes the
//! body whatever the status says; a write hands the response on as it is.
//! Nothing is retried and nothing is replaced by a default.

use crate::error::{DecodeError, SapiError};
use crate::json::{json_of, parse, parsed};
use crate::record::{decode, decode_list, list_in, record_in, views, Record};
use crate::request::Request;
use serde_json::Value;
use std::marker::PhantomData;
use vstd::prelude::*;

verus! {

/// A reply as it arrived: the status code and the body, undecoded.
#[derive(Debug, Clone, PartialEq, Eq)]
pub struct Response {
    pub status: u16,
    pub body: Vec<u8>,
}

impl Response {
    /// Whether the status is one of success, 200 to 299.
    pub fn is_success(&self) -> (r: bool)
        ensures
            r == (200 <= self.status < 300),
    {
        200 <= self.status && self.status < 300
    }

    /// The body as a JSON document, read when asked for.
    pub fn json(&self) -> (r: Result<Value, DecodeError>)
        ensures
            match r {
                Ok(v) => parsed(self.body@) == Some(json_of(v)),
                Err(e) => e is Malformed && parsed(self.body@) is None,
            },
    {
        match parse(self.body.as_slice()) {
            Ok(v) => Ok(v),
            Err(e) => Err(DecodeError::Malformed(e)),
        }
    }
}

/// A read of one record of type `T`: the request to send, and how its reply
/// is understood.
pub struct Fetch<T> {
    pub request: Request,
    pub expects: PhantomData<T>,
}

/// A read of a list of records of type `T`.
pub struct FetchList<T> {
    pub request: Request,
    pub expects: PhantomData<T>,
}

/// A write: the caller gets the response itself and judges its status.
pub struct Submit {
    pub request: Request,
}

impl<T: Record> Fetch<T> {
    pub fn new(request: Request) -> (r: Fetch<T>)
        ensures
            r.request == request,
    {
        Fetch { request, expects: PhantomData }
    }

    /// The result of the read, given the outcome of sending the request.
    ///
    /// A transport error comes back as it is. A response is decoded from its
    /// body alone: the status is not looked at.
    pub fn complete<E>(&self, reply: Result<Response, E>) -> (r: Result<T, SapiError<E>>)
        ensures
            match reply {
                Err(cause) => r == Err::<T, SapiError<E>>(SapiError::Transport(cause)),
                Ok(response) => match r {
                    Ok(x) => record_in::<T>(response.body@) == Some(x@),
                    Err(SapiError::Decode(DecodeError::Malformed(_))) => parsed(response.body@)
                        is None,
                    Err(SapiError::Decode(DecodeError::Mismatch)) => parsed(response.body@)
                        is Some && record_in::<T>(response.body@) is None,
                    Err(SapiError::Transport(_)) => false,
                },
            },
    {
        match reply {
            Err(cause) => Err(SapiError::Transport(cause)),
            Ok(response) => match decode::<T>(response.body.as_slice()) {
                Ok(x) => Ok(x),
                Err(e) => Err(SapiError::Decode(e)),
            },
        }
    }
}

impl<T: Record> FetchList<T> {
    pub fn new(request: Request) -> (r: FetchList<T>)
        ensures
            r.request == request,
    {
        FetchList { request, expects: PhantomData }
    }

    /// The result of the read, given the outcome of sending the request.
    ///
    /// A transport error comes back as it is. A response is decoded from its
    /// body alone: the status is not looked at. The list has one record for
    /// each element of the array in the body, in the same order; an empty
    /// array gives an empty list.
    pub fn complete<E>(&self, reply: Result<Response, E>) -> (r: Result<Vec<T>, SapiError<E>>)
        ensures
            match reply {
                Err(cause) => r == Err::<Vec<T>, SapiError<E>>(SapiError::Transport(cause)),
                Ok(response) => match r {
                    Ok(records) => list_in::<T>(response.body@) == Some(views(records@)),
                    Err(SapiError::Decode(DecodeError::Malformed(_))) => parsed(response.body@)
                        is None,
                    Err(SapiError::Decode(DecodeError::Mismatch)) => parsed(response.body@)
                        is Some && list_in::<T>(response.body@) is None,
                    Err(SapiError::Transport(_)) => false,
                },
            },
    {
        match reply {
            Err(cause) => Err(SapiError::Transport(cause)),
            Ok(response) => match decode_list::<T>(response.body.as_slice()) {
                Ok(records) => Ok(records),
                Err(e) => Err(SapiError::Decode(e)),
            },
        }
    }
}

impl Submit {
    pub fn new(request: Request) -> (r: Submit)
        ensures
            r.request == request,
    {
        Submit { request }
    }

    /// The result of the write, given the outcome of sending the request: the
    /// response as it arrived, whatever its status and body, or the
    /// transport's error.
    pub fn complete<E>(&self, reply: Result<Response, E>) -> (r: Result<Response, SapiError<E>>)
        ensures
            match reply {
                Err(cause) => r == Err::<Response, SapiError<E>>(SapiError::Transport(cause)),
                Ok(response) => r == Ok::<Response, SapiError<E>>(response),
            },
    {
        match reply {
            Err(cause) => Err(SapiError::Transport(cause)),
            Ok(response) => Ok(response),
        }
    }
}

} // verus!
