use vstd::prelude::*;

verus! {

/// A request that the server answered with an unexpected status; the message is
/// the server's response body, verbatim.
#[derive(Debug)]
pub struct UploadError {
    pub message: String,
}

impl UploadError {
    pub fn new(message: String) -> (r: Self)
        ensures
            r.message@ == message@,
    {
        UploadError { message }
    }

    /// The error's text, as the server sent it.
    pub fn message(&self) -> (r: &str)
        ensures
            r@ == self.message@,
    {
        self.message.as_str()
    }
}

} // verus!
