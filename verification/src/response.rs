//! The envelope every endpoint answers with: status, data, message and
//! optional metadata.
use vstd::prelude::*;

verus! {

/// A response under construction. The HTTP status is held as its numeric
/// code.
pub struct CustomResponse<T, M> {
    pub status_code: u16,
    pub data: T,
    pub message: String,
    pub meta: Option<M>,
}

impl<T, M> CustomResponse<T, M> {
    /// A `200 OK` response carrying `data`, with no message and no metadata.
    pub fn builder(data: T) -> (r: CustomResponse<T, M>)
        ensures
            r.status_code == 200,
            r.data == data,
            r.message@ == Seq::<char>::empty(),
            r.meta is None,
    {
        CustomResponse { status_code: 200, data, message: String::new(), meta: None }
    }

    /// Sets the message.
    pub fn message(self, message: &str) -> (r: CustomResponse<T, M>)
        ensures
            r.status_code == self.status_code,
            r.data == self.data,
            r.message@ == message@,
            r.meta == self.meta,
    {
        CustomResponse { message: message.to_owned(), ..self }
    }

    /// Sets the metadata.
    pub fn meta(self, meta: M) -> (r: CustomResponse<T, M>)
        ensures
            r.status_code == self.status_code,
            r.data == self.data,
            r.message == self.message,
            r.meta == Some(meta),
    {
        CustomResponse { meta: Some(meta), ..self }
    }

    /// Sets the status.
    pub fn status_code(self, status_code: u16) -> (r: CustomResponse<T, M>)
        ensures
            r.status_code == status_code,
            r.data == self.data,
            r.message == self.message,
            r.meta == self.meta,
    {
        CustomResponse { status_code, ..self }
    }
}

/// The envelope of an error: no data, the message, the status.
pub fn error_response(message: &str, status: u16) -> (r: CustomResponse<(), ()>)
    ensures
        r.status_code == status,
        r.message@ == message@,
        r.meta is None,
{
    CustomResponse::<(), ()>::builder(()).message(message).status_code(status)
}

} // verus!
