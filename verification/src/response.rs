use vstd::prelude::*;

verus! {

/// The answer the engine gives to a failed request: an HTTP status code and
/// a message.
pub struct Response {
    pub code: u16,
    pub message: String,
}

impl Response {
    /// A failure of the engine itself (500).
    pub fn server_error(message: String) -> (res: Self)
        ensures
            res.code == 500,
            res.message == message,
    {
        Response { code: 500, message }
    }

    /// A request the engine refuses (400).
    pub fn bad_request(message: String) -> (res: Self)
        ensures
            res.code == 400,
            res.message == message,
    {
        Response { code: 400, message }
    }

    /// Something the request names does not exist (404).
    pub fn not_found(message: String) -> (res: Self)
        ensures
            res.code == 404,
            res.message == message,
    {
        Response { code: 404, message }
    }

    pub fn duplicate(&self) -> (res: Self)
        ensures
            res == *self,
    {
        Response { code: self.code, message: self.message.clone() }
    }
}

} // verus!
