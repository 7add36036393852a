//! What can go wrong with a block.

use prost::DecodeError;
use vstd::prelude::*;

verus! {

/// `prost::DecodeError`: says why bytes are not the encoding of a message. It is only carried
/// along here.
#[verifier::external_type_specification]
#[verifier::external_body]
pub struct ExDecodeError(prost::DecodeError);

/// Why a block could not be handled.
#[derive(Debug)]
pub enum Error {
    /// The stream delivered no block payload.
    MissingBlock,
    /// The block payload is not an encoded block.
    Decode(DecodeError),
    /// The block has no header.
    MissingHeader,
    /// The block has no begin-block result.
    MissingBeginBlock,
    /// The block has no end-block result.
    MissingEndBlock,
}

/// Model of [`Error`]: what went wrong, without the details of a decoding error.
pub enum ErrorModel {
    MissingBlock,
    Decode,
    MissingHeader,
    MissingBeginBlock,
    MissingEndBlock,
}

impl DeepView for Error {
    type V = ErrorModel;

    open spec fn deep_view(&self) -> ErrorModel {
        match *self {
            Error::MissingBlock => ErrorModel::MissingBlock,
            Error::Decode(_) => ErrorModel::Decode,
            Error::MissingHeader => ErrorModel::MissingHeader,
            Error::MissingBeginBlock => ErrorModel::MissingBeginBlock,
            Error::MissingEndBlock => ErrorModel::MissingEndBlock,
        }
    }
}

/// Calls the `Display` implementation of `prost::DecodeError` through `to_string`. That
/// implementation writes a fixed introduction first; the details behind it are best effort, and
/// nothing is claimed of them.
#[verifier::external_body]
fn decode_error_text(err: &DecodeError) -> (res: String)
    ensures
        "failed to decode Protobuf message: "@.is_prefix_of(res@),
{
    err.to_string()
}

/// The text is what [`decode_error_text`] gives for the error.
pub closed spec fn is_text_of(err: DecodeError, text: String) -> bool {
    call_ensures(decode_error_text, (&err,), text)
}

impl Error {
    /// The text of the error.
    pub fn message(&self) -> (res: String)
        ensures
            match *self {
                Error::MissingBlock => res@
                    == "cosmos mapper is expected to always have a block"@,
                Error::Decode(err) => {
                    &&& is_text_of(err, res)
                    &&& "failed to decode Protobuf message: "@.is_prefix_of(res@)
                },
                Error::MissingHeader => res@ == "block data missing header field"@,
                Error::MissingBeginBlock => res@ == "block data missing result_begin_block field"@,
                Error::MissingEndBlock => res@ == "block data missing result_end_block field"@,
            },
    {
        match self {
            Error::MissingBlock => "cosmos mapper is expected to always have a block".to_owned(),
            Error::Decode(err) => decode_error_text(err),
            Error::MissingHeader => "block data missing header field".to_owned(),
            Error::MissingBeginBlock => "block data missing result_begin_block field".to_owned(),
            Error::MissingEndBlock => "block data missing result_end_block field".to_owned(),
        }
    }
}

} // verus!
