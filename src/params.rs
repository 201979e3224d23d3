use vstd::prelude::*;

use crate::error::{Error, ErrorKind, RpcStatus, STATUS_NOT_FOUND};
use celestia_proto::tendermint_celestia_mods::types::Block as RawBlock;
use celestia_types::block::Block;
use celestia_types::Error as TypesError;
use celestia_proto::cosmos::auth::v1beta1::BaseAccount as RawBaseAccount;
use celestia_types::state::{Address, RawTxResponse, TxResponse};

verus! {

#[verifier::external_type_specification]
#[verifier::external_body]
pub struct ExRawBlock(RawBlock);

#[verifier::external_type_specification]
#[verifier::external_body]
pub struct ExBlock(Block);

#[verifier::external_type_specification]
#[verifier::external_body]
pub struct ExRawTxResponse(RawTxResponse);

#[verifier::external_type_specification]
#[verifier::external_body]
pub struct ExTxResponse(TxResponse);

#[verifier::external_type_specification]
#[verifier::external_body]
pub struct ExTypesError(TypesError);

/// Whether celestia-types accepts the protobuf block `raw` as a domain block.
pub uninterp spec fn block_converts(raw: RawBlock) -> bool;

/// Whether celestia-types accepts the protobuf transaction response `raw` as a domain one.
pub uninterp spec fn tx_response_converts(raw: RawTxResponse) -> bool;

/// Relies on celestia-types' `Block::try_from`, which checks a protobuf block and builds the
/// domain block; whether it succeeds depends on the block alone.
#[verifier::external_body]
fn block_try_from(raw: RawBlock) -> (r: Result<Block, TypesError>)
    ensures
        r is Ok == block_converts(raw),
{
    Block::try_from(raw)
}

/// Relies on celestia-types' `TxResponse::try_from`, which checks a protobuf transaction
/// response and builds the domain response; whether it succeeds depends on the response alone.
#[verifier::external_body]
fn tx_response_try_from(raw: RawTxResponse) -> (r: Result<TxResponse, TypesError>)
    ensures
        r is Ok == tx_response_converts(raw),
{
    TxResponse::try_from(raw)
}

/// Whether `e` is one of the three decode failures that celestia-types reports.
pub open spec fn is_decode_failure(e: Error) -> bool {
    e is TendermintError || e is TendermintProtoError || e is CelestiaTypesError
}

/// Relies on celestia-types' `Error` variants and their `Display`: a consensus-format error of
/// tendermint becomes an upstream decode failure, a tendermint protobuf error a protobuf decode
/// failure, and every other one a domain decode failure, each with its message.
#[verifier::external_body]
fn types_error_to_error(e: TypesError) -> (r: Error)
    ensures
        is_decode_failure(r),
{
    match e {
        TypesError::Tendermint(t) => Error::TendermintError(t.to_string()),
        TypesError::Protobuf(p) => Error::TendermintProtoError(p.to_string()),
        other => Error::CelestiaTypesError(other.to_string()),
    }
}

/// Turns the outcome of a block query into the domain block: a failed call keeps its status,
/// a response without a block is malformed, and a block is converted exactly when celestia-types
/// accepts it, its rejection kept as a consensus-format, protobuf or domain decode failure.
pub fn block_from_response(resp: Result<Option<RawBlock>, RpcStatus>) -> (r: Result<Block, Error>)
    ensures
        resp matches Err(s) ==> r == Err::<Block, Error>(Error::TonicError(s)),
        resp matches Ok(None) ==> r == Err::<Block, Error>(Error::FailedToParseResponse),
        resp matches Ok(Some(raw)) ==> (r is Ok == block_converts(raw)),
        resp matches Ok(Some(_)) ==> (r matches Err(e) ==> is_decode_failure(e)),
{
    let raw = required_field(resp)?;
    match block_try_from(raw) {
        Ok(b) => Ok(b),
        Err(e) => Err(types_error_to_error(e)),
    }
}

/// Turns the outcome of a broadcast into the domain transaction response: a failed call keeps
/// its status, a reply without a response is malformed, and a response is converted exactly
/// when celestia-types accepts it, its rejection kept as a decode failure.
pub fn tx_response_from_response(resp: Result<Option<RawTxResponse>, RpcStatus>) -> (r: Result<
    TxResponse,
    Error,
>)
    ensures
        resp matches Err(s) ==> r == Err::<TxResponse, Error>(Error::TonicError(s)),
        resp matches Ok(None) ==> r == Err::<TxResponse, Error>(Error::FailedToParseResponse),
        resp matches Ok(Some(raw)) ==> (r is Ok == tx_response_converts(raw)),
        resp matches Ok(Some(_)) ==> (r matches Err(e) ==> is_decode_failure(e)),
{
    let raw = required_field(resp)?;
    match tx_response_try_from(raw) {
        Ok(t) => Ok(t),
        Err(e) => Err(types_error_to_error(e)),
    }
}

/// Parameters of the blob module as the query service returns them.
#[derive(Debug, Clone, Copy, PartialEq, Eq, Structural)]
pub struct WireBlobParams {
    pub gas_per_blob_byte: u32,
    pub gov_max_square_size: u64,
}

/// Parameters of the blob module.
#[derive(Debug, Clone, Copy, PartialEq, Eq, Structural)]
pub struct BlobParams {
    /// Gas cost per blob byte.
    pub gas_per_blob_byte: u32,
    /// Largest square size that governance allows.
    pub gov_max_square_size: u64,
}

/// Turns the outcome of a blob-parameter query into its result, keeping every field.
pub fn blob_params_from_response(resp: Result<Option<WireBlobParams>, RpcStatus>) -> (r: Result<
    BlobParams,
    Error,
>)
    ensures
        resp matches Err(s) ==> r == Err::<BlobParams, Error>(Error::TonicError(s)),
        resp matches Ok(None) ==> r == Err::<BlobParams, Error>(Error::FailedToParseResponse),
        resp matches Ok(Some(p)) ==> r == Ok::<BlobParams, Error>(
            BlobParams {
                gas_per_blob_byte: p.gas_per_blob_byte,
                gov_max_square_size: p.gov_max_square_size,
            },
        ),
{
    let p = required_field(resp)?;
    Ok(
        BlobParams {
            gas_per_blob_byte: p.gas_per_blob_byte,
            gov_max_square_size: p.gov_max_square_size,
        },
    )
}

/// Parameters of the auth module as the query service returns them.
#[derive(Debug, Clone, Copy, PartialEq, Eq, Structural)]
pub struct WireAuthParams {
    pub max_memo_characters: u64,
    pub tx_sig_limit: u64,
    pub tx_size_cost_per_byte: u64,
    pub sig_verify_cost_ed25519: u64,
    pub sig_verify_cost_secp256k1: u64,
}

/// Parameters of the auth module.
#[derive(Debug, Clone, Copy, PartialEq, Eq, Structural)]
pub struct AuthParams {
    pub max_memo_characters: u64,
    pub tx_sig_limit: u64,
    pub tx_size_cost_per_byte: u64,
    pub sig_verify_cost_ed25519: u64,
    pub sig_verify_cost_secp256k1: u64,
}

/// Turns the outcome of an auth-parameter query into its result, keeping every field.
pub fn auth_params_from_response(resp: Result<Option<WireAuthParams>, RpcStatus>) -> (r: Result<
    AuthParams,
    Error,
>)
    ensures
        resp matches Err(s) ==> r == Err::<AuthParams, Error>(Error::TonicError(s)),
        resp matches Ok(None) ==> r == Err::<AuthParams, Error>(Error::FailedToParseResponse),
        resp matches Ok(Some(p)) ==> r == Ok::<AuthParams, Error>(
            AuthParams {
                max_memo_characters: p.max_memo_characters,
                tx_sig_limit: p.tx_sig_limit,
                tx_size_cost_per_byte: p.tx_size_cost_per_byte,
                sig_verify_cost_ed25519: p.sig_verify_cost_ed25519,
                sig_verify_cost_secp256k1: p.sig_verify_cost_secp256k1,
            },
        ),
{
    let p = required_field(resp)?;
    Ok(
        AuthParams {
            max_memo_characters: p.max_memo_characters,
            tx_sig_limit: p.tx_sig_limit,
            tx_size_cost_per_byte: p.tx_size_cost_per_byte,
            sig_verify_cost_ed25519: p.sig_verify_cost_ed25519,
            sig_verify_cost_secp256k1: p.sig_verify_cost_secp256k1,
        },
    )
}

/// The outcome of building a block-by-height request for `height`.
pub open spec fn height_outcome(height: i64) -> Result<i64, Error> {
    if height < 0 {
        Err(Error::NegativeHeight(height))
    } else {
        Ok(height)
    }
}

/// A negative height is refused as a local validation failure, so no call is made, and any
/// other height is sent as it is, never clamped.
pub proof fn lemma_negative_height_refused(height: i64)
    ensures
        height < 0 ==> (height_outcome(height) matches Err(e) && e.spec_kind()
            == ErrorKind::LocalValidation),
        height >= 0 ==> height_outcome(height) == Ok::<i64, Error>(height),
{
}

/// Builds the height of a block-by-height request; a negative height is refused before any
/// call is made, never clamped.
pub fn block_height_param(height: i64) -> (r: Result<i64, Error>)
    ensures
        r == height_outcome(height),
        height < 0 <==> r is Err,
        r is Err ==> r == Err::<i64, Error>(Error::NegativeHeight(height)),
        r matches Ok(h) ==> h == height,
{
    if height < 0 {
        Err(Error::NegativeHeight(height))
    } else {
        Ok(height)
    }
}

/// The field a response must carry: a failed call keeps its status, and a response without the
/// field is malformed.
pub fn required_field<T>(resp: Result<Option<T>, RpcStatus>) -> (r: Result<T, Error>)
    ensures
        resp matches Err(s) ==> r == Err::<T, Error>(Error::TonicError(s)),
        resp matches Ok(None) ==> r == Err::<T, Error>(Error::FailedToParseResponse),
        resp matches Ok(Some(v)) ==> r == Ok::<T, Error>(v),
{
    match resp {
        Err(s) => Err(Error::TonicError(s)),
        Ok(None) => Err(Error::FailedToParseResponse),
        Ok(Some(v)) => Ok(v),
    }
}

/// An account as the auth query service returns it.
#[derive(Debug, Clone, PartialEq, Eq)]
pub struct WireAccount {
    pub address: String,
    pub account_number: u64,
    pub sequence: u64,
}

/// Type URL of the account message that the auth query service packs.
pub const BASE_ACCOUNT_TYPE_URL: &'static str = "/cosmos.auth.v1beta1.BaseAccount";

/// An account packed as the query service returns it: the message's type URL and its bytes.
#[derive(Debug, Clone, PartialEq, Eq)]
pub struct PackedAccount {
    pub type_url: String,
    pub value: Vec<u8>,
}

/// The address, number and sequence of the protobuf base account encoded in `b`, if `b`
/// decodes as one.
pub uninterp spec fn base_account_fields(b: Seq<u8>) -> Option<(Seq<char>, u64, u64)>;

/// Relies on prost::Message::decode for the base account message: it succeeds exactly when
/// the bytes encode one, and the fields then depend on the bytes alone; its error is handed
/// back as its display text.
#[verifier::external_body]
fn decode_base_account(value: &Vec<u8>) -> (r: Result<WireAccount, String>)
    ensures
        r is Err == base_account_fields(value@) is None,
        r matches Ok(w) ==> base_account_fields(value@) == Some(
            (w.address@, w.account_number, w.sequence),
        ),
{
    let raw = <RawBaseAccount as prost::Message>::decode(value.as_slice()).map_err(|e| e.to_string())?;
    Ok(WireAccount { address: raw.address, account_number: raw.account_number, sequence: raw.sequence })
}

/// Unpacks an account: a message of another type than the base account is an unexpected
/// response, bytes that do not decode are a protobuf decode failure, and otherwise the decoded
/// fields are kept.
pub fn unpack_account(p: PackedAccount) -> (r: Result<WireAccount, Error>)
    ensures
        p.type_url@ != BASE_ACCOUNT_TYPE_URL@ ==> r == Err::<WireAccount, Error>(
            Error::UnexpectedResponseType(p.type_url),
        ),
        p.type_url@ == BASE_ACCOUNT_TYPE_URL@ ==> match base_account_fields(p.value@) {
            None => r matches Err(Error::TendermintProtoError(_)),
            Some(f) => r matches Ok(w) && (w.address@, w.account_number, w.sequence) == f,
        },
{
    let expected = BASE_ACCOUNT_TYPE_URL.to_string();
    if p.type_url != expected {
        return Err(Error::UnexpectedResponseType(p.type_url));
    }
    match decode_base_account(&p.value) {
        Ok(w) => Ok(w),
        Err(msg) => Err(Error::TendermintProtoError(msg)),
    }
}

/// An on-chain account.
#[derive(Debug, Clone, PartialEq, Eq)]
pub struct Account {
    pub address: String,
    pub account_number: u64,
    pub sequence: u64,
}

/// Whether `a` holds the fields of the wire account `w`.
pub open spec fn account_matches(a: Account, w: WireAccount) -> bool {
    a.address@ == w.address@ && a.account_number == w.account_number && a.sequence
        == w.sequence
}

/// The domain account holding the fields of `w`.
pub open spec fn account_of(w: WireAccount) -> Account {
    Account { address: w.address, account_number: w.account_number, sequence: w.sequence }
}

#[verifier::external_type_specification]
#[verifier::external_body]
pub struct ExAddress(Address);

/// Whether celestia-types reads `s` as the text of an address.
pub uninterp spec fn is_address_text(s: Seq<char>) -> bool;

/// Relies on celestia-types' `Address::from_str`, which decodes the bech32 text of an account,
/// validator or consensus address; whether it succeeds depends on the text alone.
#[verifier::external_body]
fn parse_address(s: &str) -> (r: Result<Address, TypesError>)
    ensures
        r is Ok == is_address_text(s@),
{
    <Address as std::str::FromStr>::from_str(s)
}

/// Converts a wire account into the domain account, keeping every field; an address that
/// celestia-types cannot read is a decode failure.
pub fn account_from_wire(w: WireAccount) -> (r: Result<Account, Error>)
    ensures
        r is Ok == is_address_text(w.address@),
        r matches Ok(a) ==> a == account_of(w) && account_matches(a, w),
        r matches Err(e) ==> is_decode_failure(e),
{
    match parse_address(w.address.as_str()) {
        Ok(_) => Ok(
            Account { address: w.address, account_number: w.account_number, sequence: w.sequence },
        ),
        Err(e) => Err(types_error_to_error(e)),
    }
}

/// An account that is absent on chain, reported by the remote side as not found, surfaces as
/// a transport failure that keeps the status and reads as not found.
pub proof fn lemma_absent_account_not_found(s: RpcStatus)
    requires
        s.code == STATUS_NOT_FOUND,
    ensures
        Error::TonicError(s).spec_is_not_found(),
        Error::TonicError(s).spec_kind() == ErrorKind::Transport,
{
}

/// Turns the outcome of an account query into its result: a failed call keeps its status, a
/// response without an account is malformed, and otherwise the account is converted.
pub fn account_from_response(resp: Result<Option<WireAccount>, RpcStatus>) -> (r: Result<
    Account,
    Error,
>)
    ensures
        resp matches Err(s) ==> r == Err::<Account, Error>(Error::TonicError(s)),
        resp matches Ok(None) ==> r == Err::<Account, Error>(Error::FailedToParseResponse),
        resp matches Ok(Some(w)) ==> (r is Ok == is_address_text(w.address@)),
        resp matches Ok(Some(w)) ==> (r matches Ok(a) ==> a == account_of(w)),
        resp matches Ok(Some(w)) ==> (r matches Err(e) ==> is_decode_failure(e)),
        resp matches Err(s) && s.code == STATUS_NOT_FOUND ==> (r matches Err(e)
            && e.spec_is_not_found()),
{
    match resp {
        Err(s) => Err(Error::TonicError(s)),
        Ok(None) => Err(Error::FailedToParseResponse),
        Ok(Some(w)) => account_from_wire(w),
    }
}

/// Whether every address of `ws` is one that celestia-types reads.
pub open spec fn all_addresses(ws: Seq<WireAccount>) -> bool {
    forall|i: int| 0 <= i < ws.len() ==> is_address_text(#[trigger] ws[i].address@)
}

/// Turns the outcome of an all-accounts query into its result: a failed call keeps its status,
/// an unreadable address is a decode failure, and otherwise every account is converted, in
/// order.
pub fn accounts_from_response(resp: Result<Vec<WireAccount>, RpcStatus>) -> (r: Result<
    Vec<Account>,
    Error,
>)
    ensures
        resp matches Err(s) ==> r == Err::<Vec<Account>, Error>(Error::TonicError(s)),
        resp matches Ok(ws) ==> (r is Ok == all_addresses(ws@)),
        resp matches Ok(ws) ==> (r matches Ok(accs) ==> accs@.len() == ws@.len() && forall|i: int|
            0 <= i < ws@.len() ==> #[trigger] accs@[i] == account_of(ws@[i])),
        resp matches Ok(_) ==> (r matches Err(e) ==> is_decode_failure(e)),
{
    match resp {
        Err(s) => Err(Error::TonicError(s)),
        Ok(ws) => {
            let ghost input = ws@;
            let mut rest = ws;
            let mut accs: Vec<Account> = Vec::new();
            while rest.len() > 0
                invariant
                    resp matches Ok(v) && v@ == input,
                    accs@.len() + rest@.len() == input.len(),
                    rest@ == input.subrange(accs@.len() as int, input.len() as int),
                    forall|i: int| 0 <= i < accs@.len() ==> #[trigger] accs@[i] == account_of(input[i]),
                    forall|i: int| 0 <= i < accs@.len() ==> is_address_text(#[trigger] input[i].address@),
                decreases rest@.len(),
            {
                let w = rest.remove(0);
                proof {
                    assert(w == input[accs@.len() as int]);
                }
                let ghost k = accs@.len() as int;
                match account_from_wire(w) {
                    Ok(a) => accs.push(a),
                    Err(e) => {
                        proof {
                            assert(!is_address_text(input[k].address@));
                            assert(!all_addresses(input));
                        }
                        return Err(e);
                    },
                }
                proof {
                    assert(rest@ =~= input.subrange(accs@.len() as int, input.len() as int));
                }
            }
            Ok(accs)
        },
    }
}

} // verus!
