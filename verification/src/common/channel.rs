use vstd::prelude::*;

verus! {

/// A request type that names the type of its responses.
pub trait RequestEnum {
    type ResponseEnum;
}

/// A request payload that names the type of its response.
pub trait DataResponse {
    type Response;
}

/// Something that can answer a request of type `T` once.
pub trait Responder<T: RequestEnum> {
    fn respond<Response: Into<T::ResponseEnum>>(self, response: Response);
}

/// A response that only says that a request was handled.
#[derive(Debug, Clone, Copy)]
pub struct OkResponse;

/// A response that did not fit the request it answers.
#[derive(Debug, Clone, Copy)]
pub struct InvalidResponse;

} // verus!
