//! Operations: a request together with what its response is read as.

use vstd::prelude::*;
use vstd::string::*;
use core::marker::PhantomData;
use crate::api::client::Request;
use crate::api::codec::DecodeError;
use crate::api::models::{decode, decodes, Record};

verus! {

/// What the body of a successful response is read as.
pub trait Answer: Sized {
    /// Whether `r` is what reading `body` gives.
    spec fn answers(r: Result<Self, DecodeError>, body: Seq<char>) -> bool;

    /// Reads the body of a successful response.
    fn read(body: &str) -> (r: Result<Self, DecodeError>)
        ensures
            Self::answers(r, body@),
    ;
}

/// A record is read by decoding the body as XML.
impl<T: Record> Answer for T {
    open spec fn answers(r: Result<T, DecodeError>, body: Seq<char>) -> bool {
        decodes(r, body)
    }

    fn read(body: &str) -> (r: Result<T, DecodeError>) {
        decode::<T>(body)
    }
}

/// The answer to an operation whose response holds nothing of use: any
/// body will do.
#[derive(Debug, Clone, Copy, PartialEq, Eq)]
pub struct Ignored;

impl Answer for Ignored {
    open spec fn answers(r: Result<Ignored, DecodeError>, body: Seq<char>) -> bool {
        r is Ok
    }

    fn read(body: &str) -> (r: Result<Ignored, DecodeError>) {
        Ok(Ignored)
    }
}

/// The answer to an operation whose response is no XML: the body as it
/// comes.
#[derive(Debug, Clone, PartialEq, Eq)]
pub struct RawText {
    pub text: String,
}

impl Answer for RawText {
    open spec fn answers(r: Result<RawText, DecodeError>, body: Seq<char>) -> bool {
        r matches Ok(t) && t.text@ == body
    }

    fn read(body: &str) -> (r: Result<RawText, DecodeError>) {
        Ok(RawText { text: String::from_str(body) })
    }
}

/// One operation of the service: the request to send and, by the type `T`,
/// what the body of a successful response is read as.
#[derive(Debug)]
pub struct Operation<T: Answer> {
    pub request: Request,
    pub answer: PhantomData<T>,
}

impl<T: Answer> Operation<T> {
    /// The operation that sends `request`.
    pub fn new(request: Request) -> (op: Operation<T>)
        ensures
            op.request == request,
    {
        Operation { request, answer: PhantomData }
    }

    /// Reads the body of a successful response to this operation.
    pub fn read(&self, body: &str) -> (r: Result<T, DecodeError>)
        ensures
            T::answers(r, body@),
    {
        T::read(body)
    }
}

} // verus!
