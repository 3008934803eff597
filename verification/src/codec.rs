//! Messages of one or two parts, as the codec of the request plane takes them.

use vstd::prelude::*;

verus! {

/// The reference-counted byte buffer `bytes::Bytes`. What it holds is [`bytes_content`].
#[verifier::external_type_specification]
#[verifier::external_body]
pub struct ExBytes(bytes::Bytes);

/// The bytes that a `bytes::Bytes` holds, in order.
pub uninterp spec fn bytes_content(buffer: bytes::Bytes) -> Seq<u8>;

/// Calls `<bytes::Bytes as From<Vec<u8>>>::from`, which takes the vector's memory over:
/// the buffer holds the vector's bytes, all of them and in order.
#[verifier::external_body]
pub(crate) fn bytes_from_vec(content: Vec<u8>) -> (buffer: bytes::Bytes)
    ensures
        bytes_content(buffer) == content@,
{
    bytes::Bytes::from(content)
}

/// A message with a header part and, where it carries one, a data part.
pub struct TwoPartMessage {
    pub header: bytes::Bytes,
    pub data: Option<bytes::Bytes>,
}

/// The bytes of a [`TwoPartMessage`].
pub struct TwoPartView {
    pub header: Seq<u8>,
    pub data: Option<Seq<u8>>,
}

impl View for TwoPartMessage {
    type V = TwoPartView;

    open spec fn view(&self) -> TwoPartView {
        TwoPartView {
            header: bytes_content(self.header),
            data: match self.data {
                Some(data) => Some(bytes_content(data)),
                None => None,
            },
        }
    }
}

impl TwoPartMessage {
    /// A message of a header alone.
    pub fn from_header(header: Vec<u8>) -> (message: TwoPartMessage)
        ensures
            message@ == (TwoPartView { header: header@, data: None }),
            bytes_content(message.header) == header@,
            message.data is None,
    {
        TwoPartMessage { header: bytes_from_vec(header), data: None }
    }

    /// A message of a header and a data part.
    pub fn from_parts(header: Vec<u8>, data: Vec<u8>) -> (message: TwoPartMessage)
        ensures
            message@ == (TwoPartView { header: header@, data: Some(data@) }),
            bytes_content(message.header) == header@,
            message.data is Some,
            bytes_content(message.data->0) == data@,
    {
        TwoPartMessage { header: bytes_from_vec(header), data: Some(bytes_from_vec(data)) }
    }
}

} // verus!
