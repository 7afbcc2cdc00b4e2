//! A registry that maps each account to a bounded, non-empty name, together
//! with a query bridge that reads it as of a chosen state snapshot.

mod client;
mod laws;
mod pallet;
mod rpc;

pub use pallet::{
    ensure_signed, lookup, name_check, AccountId, DispatchError, Error, Event, EventView, Origin,
    Pallet, RegistryView,
};
pub use client::{latest_index, BlockHash, Client, ClientView, FullDeps, Snapshot};
pub use rpc::{
    bytes_result_view, missing_block, query_bytes, query_text, text_result_view, utf8_lossy,
    QueryError, UsernameStorageRpc, GET_ERROR_CODE, SET_ERROR_CODE,
};
pub use laws::{
    lemma_empty_name_refused, lemma_long_name_refused, lemma_overwrite, lemma_query_unwritten,
    lemma_set_then_get,
};
