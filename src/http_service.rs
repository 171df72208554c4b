use vstd::prelude::*;
use vstd::utf8::{decode_utf8, valid_utf8};

verus! {

/// The request methods that the services tell apart.
#[derive(Clone, Copy, Debug, PartialEq, Eq, Structural)]
pub enum HttpMethod {
    Get,
    Post,
    Other,
}

/// The error a service answers a request with.
#[derive(Debug)]
pub struct MyError {
    pub payload: String,
}

pub open spec fn is_ok_with(r: Result<String, MyError>, text: Seq<char>) -> bool {
    r is Ok && r->Ok_0@ == text
}

pub open spec fn is_err_with(r: Result<String, MyError>, text: Seq<char>) -> bool {
    r is Err && r->Err_0.payload@ == text
}

fn reject(text: &str) -> (r: Result<String, MyError>)
    ensures
        is_err_with(r, text@),
{
    Err(MyError { payload: text.to_owned() })
}

/// The answer of the services that accept only `GET`: a fixed text for `GET`, and an error
/// for any other method.
pub open spec fn get_only_response(method: HttpMethod, r: Result<String, MyError>) -> bool {
    match method {
        HttpMethod::Get => is_ok_with(r, "GET request"@),
        HttpMethod::Post => is_err_with(r, "POST is not allowed"@),
        HttpMethod::Other => is_err_with(r, "Method not allowed"@),
    }
}

fn get_only(method: HttpMethod) -> (r: Result<String, MyError>)
    ensures
        get_only_response(method, r),
{
    match method {
        HttpMethod::Get => Ok("GET request".to_owned()),
        HttpMethod::Post => reject("POST is not allowed"),
        HttpMethod::Other => reject("Method not allowed"),
    }
}

/// A service that accepts only `GET`; it reads no request body.
pub struct BadTowerService {}

impl BadTowerService {
    pub fn respond(&self, method: HttpMethod) -> (r: Result<String, MyError>)
        ensures
            get_only_response(method, r),
    {
        get_only(method)
    }
}

/// A service that accepts only `GET`; it reads no request body.
pub struct MyTowerService {}

impl MyTowerService {
    pub fn respond(&self, method: HttpMethod) -> (r: Result<String, MyError>)
        ensures
            get_only_response(method, r),
    {
        get_only(method)
    }
}

/// Relies on `String::from_utf8`: it succeeds exactly on valid UTF-8, with the characters
/// that the bytes encode.
#[verifier::external_body]
fn utf8_text(bytes: Vec<u8>) -> (r: Option<String>)
    ensures
        r is Some <==> valid_utf8(bytes@),
        r is Some ==> r->Some_0@ == decode_utf8(bytes@),
{
    String::from_utf8(bytes).ok()
}

/// A service that answers `GET` with a fixed text and `POST` with the request body.
#[derive(Clone, Copy, Debug)]
pub struct GoodTowerService {}

impl GoodTowerService {
    /// Whether the body of a request with this method must be collected before answering.
    pub fn reads_body(&self, method: HttpMethod) -> (r: bool)
        ensures
            r == (method == HttpMethod::Post),
    {
        method == HttpMethod::Post
    }

    /// The answer to a request. `body` is the collected request body, `None` when collecting
    /// it failed; it is read only for `POST`.
    pub fn respond(&self, method: HttpMethod, body: Option<Vec<u8>>) -> (r: Result<String, MyError>)
        ensures
            method == HttpMethod::Get ==> is_ok_with(r, "test"@),
            method == HttpMethod::Post ==> match body {
                None => is_err_with(r, "unexpected body error"@),
                Some(b) => if valid_utf8(b@) {
                    is_ok_with(r, decode_utf8(b@))
                } else {
                    is_err_with(r, "body is not valid UTF-8"@)
                },
            },
            method == HttpMethod::Other ==> is_err_with(r, "Method not allowed"@),
    {
        match method {
            HttpMethod::Get => Ok("test".to_owned()),
            HttpMethod::Post => match body {
                None => reject("unexpected body error"),
                Some(b) => match utf8_text(b) {
                    Some(text) => Ok(text),
                    None => reject("body is not valid UTF-8"),
                },
            },
            HttpMethod::Other => reject("Method not allowed"),
        }
    }
}

} // verus!
