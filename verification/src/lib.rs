//! Verified core of an ERC-721 marketplace that runs as a Cartesi rollup
//! application: the listing registry, the decisions taken on each rollup
//! input, and the byte codecs used on the way in and out.
pub mod abi;
pub mod handlers;
pub mod hexcodec;
pub mod laws;
pub mod ledger;
pub mod storage;
pub mod text;
