//! The client of the indexing service, up to the network: it prepares the
//! request of each operation, with a bearer token from its token manager.
//! Sending a request and reading the response are left to the caller, who
//! hands the response back as plain values.

use crate::error::BlobscanClientResult;
use crate::jwt_manager::{
    default_safety_margin, Config as JWTManagerConfig, JWTManager, PolicyView,
};
use crate::request::{
    chunk_ids_body, chunk_ids_json, chunks_body, chunks_json, index_body, index_json,
    is_request_for, request, slot_body, slot_json, text_view, texts, Operation, Request,
};
use crate::signer::{token_view, AuthError};
use std::time::Duration;
use vstd::prelude::*;

verus! {

/// The HTTP client of the `reqwest` crate. The library carries it and never
/// looks inside.
#[verifier::external_type_specification]
#[verifier::external_body]
pub struct ExClient(reqwest::Client);

/// `Clone` of `reqwest::Client`, which hands out another handle to the same
/// connection pool. Nothing is claimed of the clone.
pub assume_specification[ <reqwest::Client as Clone>::clone ](client: &reqwest::Client) -> reqwest::Client;

/// What a client is made from.
pub struct Config {
    /// Where the service is, without a trailing slash.
    pub base_url: String,
    /// The key that bearer tokens are signed with.
    pub secret_key: String,
    /// How long the transport may wait for a response.
    pub timeout: Option<Duration>,
}

/// How long a bearer token of the client is valid: thirty minutes.
pub const REFRESH_INTERVAL_SECONDS: u64 = 1800;

/// The policy of the client's token manager: thirty minutes of validity and
/// the default safety margin.
pub open spec fn client_policy(secret_key: Seq<char>) -> PolicyView {
    PolicyView {
        secret_key,
        refresh_interval: REFRESH_INTERVAL_SECONDS,
        safety_margin: default_safety_margin(REFRESH_INTERVAL_SECONDS),
    }
}

/// The token manager of a client that signs with `secret_key`.
pub fn build_jwt_manager(secret_key: String) -> (manager: JWTManager)
    ensures
        manager.policy() == client_policy(secret_key@),
{
    JWTManager::new(
        JWTManagerConfig {
            secret_key,
            refresh_interval: REFRESH_INTERVAL_SECONDS,
            safety_margin: None,
        },
    )
}

/// The client: where the service is, the transport that reaches it, and the
/// manager of its bearer tokens. Clones share the manager's cache.
#[derive(Clone)]
pub struct BlobscanClient {
    base_url: String,
    client: reqwest::Client,
    jwt_manager: JWTManager,
}

impl BlobscanClient {
    /// Where the service is.
    pub closed spec fn base_url(&self) -> Seq<char> {
        self.base_url@
    }

    /// The policy of the token manager.
    pub closed spec fn policy(&self) -> PolicyView {
        self.jwt_manager.policy()
    }

    /// The transport that the client was made with.
    pub closed spec fn transport(&self) -> reqwest::Client {
        self.client
    }

    /// Whether `result` is the request of `operation` with `body` and with a
    /// token that the token manager can give.
    pub open spec fn prepares(
        &self,
        result: BlobscanClientResult<Request>,
        operation: Operation,
        body: Option<Seq<char>>,
    ) -> bool {
        exists|token: Result<Seq<char>, AuthError>| #[trigger]
            self.policy().can_answer(token) && is_request_for(
                result,
                self.base_url(),
                operation,
                body,
                token,
            )
    }

    /// A client that reaches the service at `config.base_url` through
    /// `client` and signs its tokens with `config.secret_key`.
    pub fn with_client(client: reqwest::Client, config: Config) -> (created: Self)
        ensures
            created.base_url() == config.base_url@,
            created.policy() == client_policy(config.secret_key@),
            created.transport() == client,
    {
        Self {
            base_url: config.base_url,
            client,
            jwt_manager: build_jwt_manager(config.secret_key),
        }
    }

    /// The transport, for the caller to send the prepared requests with.
    pub fn client(&self) -> (client: &reqwest::Client)
        ensures
            *client == self.transport(),
    {
        &self.client
    }

    fn prepare(&self, operation: Operation, body: Option<String>) -> (result:
        BlobscanClientResult<Request>)
        ensures
            self.prepares(result, operation, text_view(body)),
    {
        let token = self.jwt_manager.get_token();
        assert(self.policy().can_answer(token_view(token)));
        request(self.base_url.as_str(), operation, body, token)
    }

    /// Prepares the request that indexes a block with its transactions and
    /// blobs. Each argument is JSON already.
    pub fn index(&self, block: &str, transactions: &Vec<String>, blobs: &Vec<String>) -> (result:
        BlobscanClientResult<Request>)
        ensures
            self.prepares(
                result,
                Operation::Index,
                Some(index_body(block@, texts(transactions@), texts(blobs@))),
            ),
    {
        self.prepare(Operation::Index, Some(index_json(block, transactions, blobs)))
    }

    /// Prepares the request that records `slot` as the latest processed one.
    pub fn update_slot(&self, slot: u32) -> (result: BlobscanClientResult<Request>)
        ensures
            self.prepares(result, Operation::UpdateSlot, Some(slot_body(slot))),
    {
        self.prepare(Operation::UpdateSlot, Some(slot_json(slot)))
    }

    /// Prepares the request that reads the latest processed slot.
    pub fn get_slot(&self) -> (result: BlobscanClientResult<Request>)
        ensures
            self.prepares(result, Operation::GetSlot, None),
    {
        self.prepare(Operation::GetSlot, None)
    }

    /// Prepares the request that reads the chunks of failed slots.
    pub fn get_failed_slots_chunks(&self) -> (result: BlobscanClientResult<Request>)
        ensures
            self.prepares(result, Operation::GetFailedSlotsChunks, None),
    {
        self.prepare(Operation::GetFailedSlotsChunks, None)
    }

    /// Prepares the request that records chunks of failed slots. Each chunk
    /// is JSON already.
    pub fn add_failed_slots_chunks(&self, slots_chunks: &Vec<String>) -> (result:
        BlobscanClientResult<Request>)
        ensures
            self.prepares(
                result,
                Operation::AddFailedSlotsChunks,
                Some(chunks_body(texts(slots_chunks@))),
            ),
    {
        self.prepare(Operation::AddFailedSlotsChunks, Some(chunks_json(slots_chunks)))
    }

    /// Prepares the request that removes the chunks with the given ids.
    pub fn remove_failed_slots_chunks(&self, chunk_ids: &Vec<u32>) -> (result:
        BlobscanClientResult<Request>)
        ensures
            self.prepares(
                result,
                Operation::RemoveFailedSlotsChunks,
                Some(chunk_ids_body(chunk_ids@)),
            ),
    {
        self.prepare(Operation::RemoveFailedSlotsChunks, Some(chunk_ids_json(chunk_ids)))
    }
}

} // verus!
