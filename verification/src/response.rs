//! The responses of the service: what a status and a body mean for each
//! operation.

use crate::error::{BlobscanClientError, BlobscanClientResult};
use vstd::prelude::*;
use vstd::string::*;

verus! {

/// The status of a response that succeeded.
pub const STATUS_OK: u16 = 200;

/// The status of a response that found nothing.
pub const STATUS_NOT_FOUND: u16 = 404;

/// A response as the transport read it: the status code and the body as text.
#[derive(Debug, Clone, PartialEq, Eq)]
pub struct Response {
    pub status: u16,
    pub body: String,
}

impl Response {
    /// The error that a response with an unexpected status stands for.
    pub open spec fn remote_error(self) -> BlobscanClientError {
        BlobscanClientError::Remote { status: self.status, body: self.body }
    }

    /// The outcome of an operation that returns nothing (`index`,
    /// `update_slot`, `add_failed_slots_chunks`,
    /// `remove_failed_slots_chunks`): done on 200, an error with the body on
    /// every other status.
    pub fn acknowledged(self) -> (result: BlobscanClientResult<()>)
        ensures
            self.status == STATUS_OK ==> result == Ok::<(), BlobscanClientError>(()),
            self.status != STATUS_OK ==> result == Err::<(), BlobscanClientError>(
                self.remote_error(),
            ),
    {
        if self.status == STATUS_OK {
            Ok(())
        } else {
            Err(BlobscanClientError::Remote { status: self.status, body: self.body })
        }
    }

    /// The outcome of `get_failed_slots_chunks`: the body, which holds the
    /// chunks, on 200, and an error with the body on every other status.
    pub fn payload(self) -> (result: BlobscanClientResult<String>)
        ensures
            self.status == STATUS_OK ==> result == Ok::<String, BlobscanClientError>(self.body),
            self.status != STATUS_OK ==> result == Err::<String, BlobscanClientError>(
                self.remote_error(),
            ),
    {
        if self.status == STATUS_OK {
            Ok(self.body)
        } else {
            Err(BlobscanClientError::Remote { status: self.status, body: self.body })
        }
    }

    /// Whether `result` is the outcome of `get_slot` for this response, where
    /// `member` is what the body holds as its member `slot`: on 200 the slot,
    /// or a decoding error where the body holds none that fits 32 bits; on
    /// 404 nothing, since no slot was recorded yet; on every other status an
    /// error with the body.
    pub open spec fn is_slot_outcome(
        self,
        member: Option<u64>,
        result: BlobscanClientResult<Option<u32>>,
    ) -> bool {
        if self.status == STATUS_OK {
            match member {
                Some(slot) if slot <= u32::MAX => result == Ok::<
                    Option<u32>,
                    BlobscanClientError,
                >(Some(slot as u32)),
                _ => result matches Err(BlobscanClientError::Decode(description))
                    && description@ == "the response holds no slot"@,
            }
        } else if self.status == STATUS_NOT_FOUND {
            result == Ok::<Option<u32>, BlobscanClientError>(None)
        } else {
            result == Err::<Option<u32>, BlobscanClientError>(self.remote_error())
        }
    }

    /// The outcome of `get_slot` for this response and for what was read
    /// from its body as the member `slot`.
    pub fn slot_from(self, member: Option<u64>) -> (result: BlobscanClientResult<Option<u32>>)
        ensures
            self.is_slot_outcome(member, result),
    {
        if self.status == STATUS_OK {
            match member {
                Some(slot) if slot <= u32::MAX as u64 => Ok(Some(slot as u32)),
                _ => Err(BlobscanClientError::Decode(String::from_str("the response holds no slot"))),
            }
        } else if self.status == STATUS_NOT_FOUND {
            Ok(None)
        } else {
            Err(BlobscanClientError::Remote { status: self.status, body: self.body })
        }
    }

    /// The outcome of `get_slot`: the slot that the body of a 200 response
    /// holds, nothing on 404, and an error with the body on every other
    /// status.
    pub fn slot(self) -> (result: BlobscanClientResult<Option<u32>>)
        ensures
            self.is_slot_outcome(json_u64_member(self.body@, "slot"@), result),
    {
        let member: Option<u64> = if self.status == STATUS_OK {
            read_u64_member(self.body.as_str(), "slot")
        } else {
            None
        };
        self.slot_from(member)
    }
}

/// The member `name` of the JSON object `body` as an unsigned integer, as
/// `serde_json` reads it; `None` where `body` is no JSON object, has no such
/// member, or the member is no integer from 0 to 2^64 - 1.
pub uninterp spec fn json_u64_member(body: Seq<char>, name: Seq<char>) -> Option<u64>;

/// Calls `serde_json::from_str` for a `Value`, then `Value::get` and
/// `Value::as_u64`. The contract only gives the outcome its name.
#[verifier::external_body]
fn read_u64_member(body: &str, name: &str) -> (member: Option<u64>)
    ensures
        member == json_u64_member(body@, name@),
{
    let document: serde_json::Value = serde_json::from_str(body).ok()?;
    document.get(name)?.as_u64()
}

} // verus!
