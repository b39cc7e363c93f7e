//! The requests of the service: one operation for each endpoint, its method,
//! its URL and its JSON body.

use crate::encoding::{decimal, push_decimal};
use crate::error::{BlobscanClientError, BlobscanClientResult};
use crate::signer::{token_view, AuthError};
use vstd::prelude::*;
use vstd::string::*;

verus! {

/// The two HTTP methods that the service is called with.
#[derive(Debug, Clone, Copy, PartialEq, Eq, Structural)]
pub enum Method {
    Get,
    Post,
}

/// The operations of the service.
#[derive(Debug, Clone, Copy, PartialEq, Eq, Structural)]
pub enum Operation {
    Index,
    UpdateSlot,
    GetSlot,
    GetFailedSlotsChunks,
    AddFailedSlotsChunks,
    RemoveFailedSlotsChunks,
}

impl Operation {
    /// The method that the operation is sent with: the two reads are GET,
    /// all others POST.
    pub open spec fn spec_method(self) -> Method {
        match self {
            Operation::GetSlot | Operation::GetFailedSlotsChunks => Method::Get,
            _ => Method::Post,
        }
    }

    /// The last segment of the operation's URL.
    pub open spec fn spec_path(self) -> Seq<char> {
        match self {
            Operation::Index => "index"@,
            Operation::UpdateSlot => "slot"@,
            Operation::GetSlot => "slot"@,
            Operation::GetFailedSlotsChunks => "failed-slots-chunks"@,
            Operation::AddFailedSlotsChunks => "failed-slots-chunks"@,
            Operation::RemoveFailedSlotsChunks => "delete-failed-slots-chunks"@,
        }
    }

    /// The method that the operation is sent with.
    #[verifier::when_used_as_spec(spec_method)]
    pub fn method(self) -> (method: Method)
        ensures
            method == self.spec_method(),
    {
        match self {
            Operation::GetSlot | Operation::GetFailedSlotsChunks => Method::Get,
            _ => Method::Post,
        }
    }

    /// The last segment of the operation's URL.
    pub fn path(self) -> (path: &'static str)
        ensures
            path@ == self.spec_path(),
    {
        match self {
            Operation::Index => "index",
            Operation::UpdateSlot => "slot",
            Operation::GetSlot => "slot",
            Operation::GetFailedSlotsChunks => "failed-slots-chunks",
            Operation::AddFailedSlotsChunks => "failed-slots-chunks",
            Operation::RemoveFailedSlotsChunks => "delete-failed-slots-chunks",
        }
    }
}

/// The URL of an operation under `base_url`.
pub open spec fn api_url(base_url: Seq<char>, path: Seq<char>) -> Seq<char> {
    base_url + "/api/"@ + path
}

/// A request that is ready to be sent: `token` goes into the header
/// `Authorization: Bearer <token>`, `body` is JSON.
#[derive(Debug, Clone, PartialEq, Eq)]
pub struct Request {
    pub method: Method,
    pub url: String,
    pub token: String,
    pub body: Option<String>,
}

/// An optional text, by its view.
pub open spec fn text_view(text: Option<String>) -> Option<Seq<char>> {
    match text {
        Some(text) => Some(text@),
        None => None,
    }
}

/// What `request` returns for an operation, a body and the answer of the
/// token manager.
pub open spec fn is_request_for(
    result: BlobscanClientResult<Request>,
    base_url: Seq<char>,
    operation: Operation,
    body: Option<Seq<char>>,
    token: Result<Seq<char>, AuthError>,
) -> bool {
    match token {
        Ok(token) => result matches Ok(request) && request.method == operation.spec_method()
            && request.url@ == api_url(base_url, operation.spec_path()) && request.token@ == token
            && text_view(request.body) == body,
        Err(e) => result == Err::<Request, BlobscanClientError>(BlobscanClientError::Auth(e)),
    }
}

/// The URL of `path` under `base_url`: the base, `/api/` and the path.
pub fn build_url(base_url: &str, path: &str) -> (url: String)
    ensures
        url@ == api_url(base_url@, path@),
{
    let mut url: String = String::from_str(base_url);
    url.append("/api/");
    url.append(path);
    url
}

/// The request of `operation` under `base_url`, with `body` and with the
/// token that the token manager answered, or the manager's error.
pub fn request(
    base_url: &str,
    operation: Operation,
    body: Option<String>,
    token: Result<String, AuthError>,
) -> (result: BlobscanClientResult<Request>)
    ensures
        is_request_for(
            result,
            base_url@,
            operation,
            text_view(body),
            token_view(token),
        ),
{
    match token {
        Ok(token) => Ok(
            Request {
                method: operation.method(),
                url: build_url(base_url, operation.path()),
                token,
                body,
            },
        ),
        Err(e) => Err(BlobscanClientError::Auth(e)),
    }
}

/// The texts of a list of strings.
pub open spec fn texts(items: Seq<String>) -> Seq<Seq<char>> {
    Seq::new(items.len(), |i: int| items[i]@)
}

/// The decimal texts of a list of numbers.
pub open spec fn number_texts(numbers: Seq<u32>) -> Seq<Seq<char>> {
    Seq::new(numbers.len(), |i: int| decimal(numbers[i] as int))
}

/// The items with a comma between each two of them.
pub open spec fn comma_separated(items: Seq<Seq<char>>) -> Seq<char>
    decreases items.len(),
{
    if items.len() == 0 {
        Seq::empty()
    } else if items.len() == 1 {
        items[0]
    } else {
        comma_separated(items.drop_last()) + ","@ + items.last()
    }
}

/// A JSON array of items that are JSON already.
pub open spec fn json_array(items: Seq<Seq<char>>) -> Seq<char> {
    "["@ + comma_separated(items) + "]"@
}

/// The body of `index`: a block with its transactions and blobs.
pub open spec fn index_body(
    block: Seq<char>,
    transactions: Seq<Seq<char>>,
    blobs: Seq<Seq<char>>,
) -> Seq<char> {
    "{\"block\":"@ + block + ",\"transactions\":"@ + json_array(transactions) + ",\"blobs\":"@
        + json_array(blobs) + "}"@
}

/// The body of `update_slot`.
pub open spec fn slot_body(slot: u32) -> Seq<char> {
    "{\"slot\":"@ + decimal(slot as int) + "}"@
}

/// The body of `add_failed_slots_chunks`.
pub open spec fn chunks_body(chunks: Seq<Seq<char>>) -> Seq<char> {
    "{\"chunks\":"@ + json_array(chunks) + "}"@
}

/// The body of `remove_failed_slots_chunks`.
pub open spec fn chunk_ids_body(chunk_ids: Seq<u32>) -> Seq<char> {
    "{\"chunk_ids\":"@ + json_array(number_texts(chunk_ids)) + "}"@
}

/// Appends to `out` the JSON array of `items`, each of which is JSON already.
pub fn push_json_array(out: &mut String, items: &Vec<String>)
    ensures
        final(out)@ == old(out)@ + json_array(texts(items@)),
{
    out.append("[");
    let mut i: usize = 0;
    while i < items.len()
        invariant
            i <= items.len(),
            out@ == old(out)@ + "["@ + comma_separated(texts(items@).take(i as int)),
        decreases items.len() - i,
    {
        if i > 0 {
            out.append(",");
        }
        out.append(items[i].as_str());
        assert(texts(items@).take(i as int + 1).drop_last() =~= texts(items@).take(i as int));
        i = i + 1;
    }
    out.append("]");
    assert(texts(items@).take(i as int) =~= texts(items@));
}

/// Appends to `out` the JSON array of `numbers`.
pub fn push_json_numbers(out: &mut String, numbers: &Vec<u32>)
    ensures
        final(out)@ == old(out)@ + json_array(number_texts(numbers@)),
{
    out.append("[");
    let mut i: usize = 0;
    while i < numbers.len()
        invariant
            i <= numbers.len(),
            out@ == old(out)@ + "["@ + comma_separated(number_texts(numbers@).take(i as int)),
        decreases numbers.len() - i,
    {
        if i > 0 {
            out.append(",");
        }
        push_decimal(out, numbers[i] as i128);
        assert(number_texts(numbers@).take(i as int + 1).drop_last() =~= number_texts(
            numbers@,
        ).take(i as int));
        i = i + 1;
    }
    out.append("]");
    assert(number_texts(numbers@).take(i as int) =~= number_texts(numbers@));
}

/// Writes the body of `index` from a block, its transactions and its blobs,
/// each of which is JSON already.
pub fn index_json(block: &str, transactions: &Vec<String>, blobs: &Vec<String>) -> (body: String)
    ensures
        body@ == index_body(block@, texts(transactions@), texts(blobs@)),
{
    let mut body: String = String::from_str("{\"block\":");
    body.append(block);
    body.append(",\"transactions\":");
    push_json_array(&mut body, transactions);
    body.append(",\"blobs\":");
    push_json_array(&mut body, blobs);
    body.append("}");
    body
}

/// Writes the body of `update_slot`.
pub fn slot_json(slot: u32) -> (body: String)
    ensures
        body@ == slot_body(slot),
{
    let mut body: String = String::from_str("{\"slot\":");
    push_decimal(&mut body, slot as i128);
    body.append("}");
    body
}

/// Writes the body of `add_failed_slots_chunks` from chunks that are JSON
/// already.
pub fn chunks_json(chunks: &Vec<String>) -> (body: String)
    ensures
        body@ == chunks_body(texts(chunks@)),
{
    let mut body: String = String::from_str("{\"chunks\":");
    push_json_array(&mut body, chunks);
    body.append("}");
    body
}

/// Writes the body of `remove_failed_slots_chunks`.
pub fn chunk_ids_json(chunk_ids: &Vec<u32>) -> (body: String)
    ensures
        body@ == chunk_ids_body(chunk_ids@),
{
    let mut body: String = String::from_str("{\"chunk_ids\":");
    push_json_numbers(&mut body, chunk_ids);
    body.append("}");
    body
}

} // verus!
