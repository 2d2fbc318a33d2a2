//! Addresses and selectors, computed by the `starknet` crate.
//!
//! The hashes behind them are not restated here. Each result has a name, and
//! the contracts of this library say which arguments the name is applied to.

use vstd::prelude::*;
use vstd::string::*;
use crate::felt::{Felt, felts_view, zero_bytes};
use crate::transaction::{BuildError, TxPayload, TxPayloadView, UnsignedTransaction, UnsignedTransactionView};

verus! {

/// What `starknet::core::utils::get_udc_deployed_address` returns: the address
/// of a contract deployed through the universal deployer. `deployer` and `udc`
/// are the deployer's address and the universal deployer's own, both present
/// for a deployment that is unique to its deployer and both absent otherwise.
pub uninterp spec fn udc_deployed_address(
    salt: Seq<u8>,
    class_hash: Seq<u8>,
    deployer: Option<Seq<u8>>,
    udc: Option<Seq<u8>>,
    constructor_calldata: Seq<Seq<u8>>,
) -> Seq<u8>;

/// What `starknet::core::utils::get_contract_address` returns: the address of
/// a contract deployed natively.
pub uninterp spec fn contract_address(
    salt: Seq<u8>,
    class_hash: Seq<u8>,
    constructor_calldata: Seq<Seq<u8>>,
    deployer: Seq<u8>,
) -> Seq<u8>;

/// What `starknet::core::utils::get_selector_from_name` returns for a name
/// made of ASCII characters.
pub uninterp spec fn selector_from_name(name: Seq<char>) -> Seq<u8>;

/// The error of `starknet::core::utils::get_selector_from_name`, carried
/// through as it is.
#[verifier::external_type_specification]
#[verifier::external_body]
pub struct ExNonAsciiNameError(starknet::core::utils::NonAsciiNameError);

/// Whether a deployment through the universal deployer is tied to its deployer.
#[derive(Clone, Copy, Debug, PartialEq, Eq)]
pub enum Uniqueness {
    NotUnique,
    Unique { deployer: Felt, udc: Felt },
}

impl Uniqueness {
    /// The deployer's address, where the deployment is tied to it.
    pub open spec fn deployer(self) -> Option<Seq<u8>> {
        match self {
            Uniqueness::NotUnique => None,
            Uniqueness::Unique { deployer, .. } => Some(deployer@),
        }
    }

    /// The universal deployer's address, where the deployment is tied to its deployer.
    pub open spec fn udc(self) -> Option<Seq<u8>> {
        match self {
            Uniqueness::NotUnique => None,
            Uniqueness::Unique { udc, .. } => Some(udc@),
        }
    }
}

/// The bytes of the universal deployer's address,
/// `0x041a78e741e5af2fec34b695679bc6891742439f7afb8484ecd7766661ad02bf`.
pub open spec fn udc_address_bytes() -> Seq<u8> {
    seq![
        0x04u8, 0x1a, 0x78, 0xe7, 0x41, 0xe5, 0xaf, 0x2f, 0xec, 0x34, 0xb6, 0x95, 0x67, 0x9b, 0xc6,
        0x89, 0x17, 0x42, 0x43, 0x9f, 0x7a, 0xfb, 0x84, 0x84, 0xec, 0xd7, 0x76, 0x66, 0x61, 0xad,
        0x02, 0xbf,
    ]
}

/// The address of the universal deployer.
pub fn udc_address() -> (r: Felt)
    ensures
        r@ == udc_address_bytes(),
{
    let r = Felt {
        bytes: [
            0x04u8, 0x1a, 0x78, 0xe7, 0x41, 0xe5, 0xaf, 0x2f, 0xec, 0x34, 0xb6, 0x95, 0x67, 0x9b,
            0xc6, 0x89, 0x17, 0x42, 0x43, 0x9f, 0x7a, 0xfb, 0x84, 0x84, 0xec, 0xd7, 0x76, 0x66,
            0x61, 0xad, 0x02, 0xbf,
        ],
    };
    assert(r@ =~= udc_address_bytes());
    r
}

/// Calls `starknet::core::utils::get_udc_deployed_address` on the given
/// values. The result is the named address of exactly these arguments.
#[verifier::external_body]
fn udc_deployed_address_of(
    salt: &Felt,
    class_hash: &Felt,
    uniqueness: &Uniqueness,
    constructor_calldata: &Vec<Felt>,
) -> (r: Felt)
    ensures
        r@ == udc_deployed_address(
            salt@,
            class_hash@,
            uniqueness.deployer(),
            uniqueness.udc(),
            felts_view(constructor_calldata@),
        ),
{
    let to = |f: &Felt| starknet::core::types::Felt::from_bytes_be(&f.bytes);
    let mode = match uniqueness {
        Uniqueness::NotUnique => starknet::core::utils::UdcUniqueness::NotUnique,
        Uniqueness::Unique { deployer, udc } => starknet::core::utils::UdcUniqueness::Unique(
            starknet::core::utils::UdcUniqueSettings {
                deployer_address: to(deployer),
                udc_contract_address: to(udc),
            },
        ),
    };
    let calldata: Vec<starknet::core::types::Felt> = constructor_calldata.iter().map(to).collect();
    let r = starknet::core::utils::get_udc_deployed_address(to(salt), to(class_hash), &mode, &calldata);
    Felt { bytes: r.to_bytes_be() }
}

/// Calls `starknet::core::utils::get_contract_address` on the given values.
/// The result is the named address of exactly these arguments.
#[verifier::external_body]
fn contract_address_of(
    salt: &Felt,
    class_hash: &Felt,
    constructor_calldata: &Vec<Felt>,
    deployer: &Felt,
) -> (r: Felt)
    ensures
        r@ == contract_address(salt@, class_hash@, felts_view(constructor_calldata@), deployer@),
{
    let to = |f: &Felt| starknet::core::types::Felt::from_bytes_be(&f.bytes);
    let calldata: Vec<starknet::core::types::Felt> = constructor_calldata.iter().map(to).collect();
    let r = starknet::core::utils::get_contract_address(to(salt), to(class_hash), &calldata, to(deployer));
    Felt { bytes: r.to_bytes_be() }
}

/// Calls `starknet::core::utils::get_selector_from_name`. It fails exactly on
/// a name with a character outside ASCII; otherwise the result is the named
/// selector of the name.
#[verifier::external_body]
fn selector_from_name_of(name: &str) -> (r: Result<Felt, starknet::core::utils::NonAsciiNameError>)
    ensures
        r is Ok <==> is_ascii(name),
        r matches Ok(f) ==> f@ == selector_from_name(name@),
{
    match starknet::core::utils::get_selector_from_name(name) {
        Ok(f) => Ok(Felt { bytes: f.to_bytes_be() }),
        Err(e) => Err(e),
    }
}

/// The address at which a deploy lands: the named address of salt, class hash
/// and calldata, and, only where the deployment is unique, of the sender and
/// the universal deployer as well.
pub open spec fn deploy_target(
    sender: Seq<u8>,
    class_hash: Seq<u8>,
    salt: Seq<u8>,
    unique: bool,
    constructor_calldata: Seq<Seq<u8>>,
) -> Seq<u8> {
    if unique {
        udc_deployed_address(
            salt,
            class_hash,
            Some(sender),
            Some(udc_address_bytes()),
            constructor_calldata,
        )
    } else {
        udc_deployed_address(salt, class_hash, None, None, constructor_calldata)
    }
}

/// The address of an account: the named native address of its salt and class
/// hash, with the public key as the only calldata and no deployer.
pub open spec fn account_target(class_hash: Seq<u8>, salt: Seq<u8>, public_key: Seq<u8>) -> Seq<u8> {
    contract_address(salt, class_hash, seq![public_key], zero_bytes())
}

/// Computes the address at which a deploy by `sender` lands.
pub fn deployed_address(
    sender: &Felt,
    class_hash: &Felt,
    salt: &Felt,
    unique: bool,
    constructor_calldata: &Vec<Felt>,
) -> (r: Felt)
    ensures
        r@ == deploy_target(sender@, class_hash@, salt@, unique, felts_view(constructor_calldata@)),
{
    let uniqueness = if unique {
        Uniqueness::Unique { deployer: *sender, udc: udc_address() }
    } else {
        Uniqueness::NotUnique
    };
    udc_deployed_address_of(salt, class_hash, &uniqueness, constructor_calldata)
}

/// Computes the address of an account from its class hash, salt and public key.
pub fn account_address(class_hash: &Felt, salt: &Felt, public_key: &Felt) -> (r: Felt)
    ensures
        r@ == account_target(class_hash@, salt@, public_key@),
{
    let mut calldata: Vec<Felt> = Vec::new();
    calldata.push(*public_key);
    assert(felts_view(calldata@) =~= seq![public_key@]);
    let zero = Felt::zero();
    contract_address_of(salt, class_hash, &calldata, &zero)
}

/// Computes the selector of a function from its name. Fails exactly on a name
/// with a character outside ASCII.
pub fn selector_of(name: &str) -> (r: Result<Felt, BuildError>)
    ensures
        r is Ok <==> is_ascii(name),
        r matches Ok(f) ==> f@ == selector_from_name(name@),
        r matches Err(e) ==> e == BuildError::InvalidFunctionName,
{
    match selector_from_name_of(name) {
        Ok(f) => Ok(f),
        Err(_) => Err(BuildError::InvalidFunctionName),
    }
}

/// The address that the result of a transaction names: for a deploy the
/// address at which the contract lands, for the other kinds none.
pub open spec fn target_of(tx: UnsignedTransactionView) -> Option<Seq<u8>> {
    match tx.payload {
        TxPayloadView::Deploy { class_hash, constructor_calldata, salt, unique } => Some(
            deploy_target(tx.sender, class_hash, salt, unique, constructor_calldata),
        ),
        _ => None,
    }
}

/// Computes the address that the result of a transaction names.
pub fn expected_address(tx: &UnsignedTransaction) -> (r: Option<Felt>)
    ensures
        match r {
            Some(a) => target_of(tx@) == Some(a@),
            None => target_of(tx@) is None,
        },
{
    match &tx.payload {
        TxPayload::Deploy { class_hash, constructor_calldata, salt, unique } => Some(
            deployed_address(&tx.sender, class_hash, salt, *unique, constructor_calldata),
        ),
        _ => None,
    }
}

/// A deploy that is not unique lands at an address that does not depend on
/// who sends it.
pub proof fn lemma_not_unique_ignores_sender(
    sender_a: Seq<u8>,
    sender_b: Seq<u8>,
    class_hash: Seq<u8>,
    salt: Seq<u8>,
    constructor_calldata: Seq<Seq<u8>>,
)
    ensures
        deploy_target(sender_a, class_hash, salt, false, constructor_calldata) == deploy_target(
            sender_b,
            class_hash,
            salt,
            false,
            constructor_calldata,
        ),
{
}

} // verus!
