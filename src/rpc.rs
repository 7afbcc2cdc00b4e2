use vstd::prelude::*;
use vstd::slice::slice_to_vec;
use vstd::utf8::{decode_utf8, encode_utf8, valid_utf8};

use crate::client::{BlockHash, Client, ClientView};
use crate::pallet::{lookup, AccountId, DispatchError, Origin};

verus! {

/// Code of the errors that a read gives.
pub const GET_ERROR_CODE: i32 = 1;

/// Code of the errors that a relayed write gives.
pub const SET_ERROR_CODE: i32 = 3;

/// Why a query failed. Each is a server-side error for the caller.
#[derive(Debug, Clone, Copy, PartialEq, Eq, Structural)]
pub enum QueryError {
    /// No finalized block has the requested hash.
    UnknownBlock(BlockHash),
    /// The latest block was asked for, and none is finalized yet.
    NoBlocks,
    /// The registry refused a relayed write.
    SetFailed(DispatchError),
}

impl QueryError {
    /// The machine-readable code of the error.
    pub fn code(&self) -> (r: i32)
        ensures
            self is SetFailed ==> r == SET_ERROR_CODE,
            !(self is SetFailed) ==> r == GET_ERROR_CODE,
    {
        match self {
            QueryError::SetFailed(_) => SET_ERROR_CODE,
            _ => GET_ERROR_CODE,
        }
    }

    /// A short message for a person.
    pub fn message(&self) -> (r: &'static str)
        ensures
            self is SetFailed ==> r@ == "Failed to set username"@,
            !(self is SetFailed) ==> r@ == "Unable to get username"@,
    {
        match self {
            QueryError::SetFailed(_) => "Failed to set username",
            _ => "Unable to get username",
        }
    }
}

/// The error of a read whose snapshot `at` cannot be found.
pub open spec fn missing_block(at: Option<BlockHash>) -> QueryError {
    match at {
        Some(hash) => QueryError::UnknownBlock(hash),
        None => QueryError::NoBlocks,
    }
}

/// What a read of the name of `who` as of `at` gives, as bytes.
pub open spec fn query_bytes(c: ClientView, who: AccountId, at: Option<BlockHash>) -> Result<
    Option<Seq<u8>>,
    QueryError,
> {
    match c.state_at(at) {
        Some(names) => Ok(lookup(names, who)),
        None => Err(missing_block(at)),
    }
}

/// What a read of the name of `who` as of `at` gives, as text.
pub open spec fn query_text(c: ClientView, who: AccountId, at: Option<BlockHash>) -> Result<
    Option<Seq<char>>,
    QueryError,
> {
    match query_bytes(c, who, at) {
        Ok(Some(b)) => Ok(Some(utf8_lossy(b))),
        Ok(None) => Ok(None),
        Err(e) => Err(e),
    }
}

/// The value of a byte read.
pub open spec fn bytes_result_view(r: Result<Option<Vec<u8>>, QueryError>) -> Result<
    Option<Seq<u8>>,
    QueryError,
> {
    match r {
        Ok(Some(v)) => Ok(Some(v@)),
        Ok(None) => Ok(None),
        Err(e) => Err(e),
    }
}

/// The value of a text read.
pub open spec fn text_result_view(r: Result<Option<String>, QueryError>) -> Result<
    Option<Seq<char>>,
    QueryError,
> {
    match r {
        Ok(Some(s)) => Ok(Some(s@)),
        Ok(None) => Ok(None),
        Err(e) => Err(e),
    }
}

/// The text that lossy UTF-8 decoding makes of a byte sequence.
pub uninterp spec fn utf8_lossy(b: Seq<u8>) -> Seq<char>;

/// Relies on `String::from_utf8_lossy`: it never fails, its result depends
/// on the bytes alone, and valid UTF-8 decodes to exactly its characters.
#[verifier::external_body]
fn decode_lossy(bytes: &Vec<u8>) -> (r: String)
    ensures
        r@ == utf8_lossy(bytes@),
        valid_utf8(bytes@) ==> r@ == decode_utf8(bytes@),
{
    String::from_utf8_lossy(bytes).into_owned()
}

/// The query endpoints: reads of the registry as of a finalized block, and
/// a relay of writes into the live registry.
pub struct UsernameStorageRpc {
    client: Client,
}

impl View for UsernameStorageRpc {
    type V = ClientView;

    closed spec fn view(&self) -> ClientView {
        self.client@
    }
}

impl UsernameStorageRpc {
    /// The live registry behind the endpoints satisfies its invariant.
    pub open spec fn wf(&self) -> bool {
        self@.live.wf()
    }

    /// Endpoints over `client`.
    pub fn new(client: Client) -> (r: UsernameStorageRpc)
        ensures
            r@ == client@,
    {
        UsernameStorageRpc { client }
    }

    /// The client that the endpoints read and write.
    pub fn client(&self) -> (r: &Client)
        ensures
            r@ == self@,
    {
        &self.client
    }

    /// The stored bytes of the name of `account_id` as of `at`: the latest
    /// finalized block when `at` is `None`. Fails only when no such block
    /// exists.
    pub fn get_username_bytes(&self, account_id: AccountId, at: Option<BlockHash>) -> (r: Result<
        Option<Vec<u8>>,
        QueryError,
    >)
        ensures
            bytes_result_view(r) == query_bytes(self@, account_id, at),
    {
        match self.client.state_at(at) {
            Some(state) => Ok(state.usernames(account_id)),
            None => match at {
                Some(hash) => Err(QueryError::UnknownBlock(hash)),
                None => Err(QueryError::NoBlocks),
            },
        }
    }

    /// The name of `account_id` as of `at`, as text. Bytes that are not
    /// valid UTF-8 are replaced rather than failing the read.
    pub fn get_username(&self, account_id: AccountId, at: Option<BlockHash>) -> (r: Result<
        Option<String>,
        QueryError,
    >)
        ensures
            text_result_view(r) == query_text(self@, account_id, at),
    {
        match self.get_username_bytes(account_id, at) {
            Ok(Some(bytes)) => Ok(Some(decode_lossy(&bytes))),
            Ok(None) => Ok(None),
            Err(e) => Err(e),
        }
    }

    /// Administrative relay: writes `username` as the name of `account_id`
    /// into the live registry with no signature check, as if `account_id`
    /// had signed the call. Only trusted callers may reach it.
    pub fn set_username(&mut self, account_id: AccountId, username: String) -> (r: Result<
        (),
        QueryError,
    >)
        requires
            old(self).wf(),
        ensures
            final(self).wf(),
            final(self)@.blocks == old(self)@.blocks,
            ({
                let (res, live) = old(self)@.live.set_step(
                    Origin::Signed(account_id),
                    encode_utf8(username@),
                );
                &&& final(self)@.live == live
                &&& match res {
                    Ok(()) => r == Ok::<(), QueryError>(()),
                    Err(e) => r == Err::<(), QueryError>(QueryError::SetFailed(e)),
                }
            }),
    {
        let bytes = slice_to_vec(username.as_str().as_bytes());
        match self.client.set_username(Origin::Signed(account_id), bytes) {
            Ok(()) => Ok(()),
            Err(e) => Err(QueryError::SetFailed(e)),
        }
    }
}

} // verus!
