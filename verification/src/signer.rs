//! Resolving the identity that signs.
//!
//! There are two sources, and a resolution uses exactly one of them. A
//! keystore path that is set selects the keystore; the identifier is then the
//! path of the account descriptor, and neither file is opened here. Otherwise
//! the identifier is the name of a record of the accounts file, looked up on
//! the current network only.

use vstd::prelude::*;
use vstd::string::*;
use crate::accounts::{AccountRecordView, AccountsStore, lookup};
use crate::text::opt_chars;
use crate::felt::Felt;

verus! {

/// The identity that signs.
#[derive(Clone, Debug, PartialEq, Eq)]
pub enum SigningIdentity {
    /// A record of the accounts file.
    AccountsFileEntry { identifier: String, private_key: Felt, account_address: Felt, public_key: Felt },
    /// A keystore file and the descriptor of its account, both unopened.
    KeystoreEntry { keystore_path: String, account_descriptor_path: String },
}

pub enum SigningIdentityView {
    AccountsFileEntry {
        identifier: Seq<char>,
        private_key: Seq<u8>,
        account_address: Seq<u8>,
        public_key: Seq<u8>,
    },
    KeystoreEntry { keystore_path: Seq<char>, account_descriptor_path: Seq<char> },
}

impl View for SigningIdentity {
    type V = SigningIdentityView;

    open spec fn view(&self) -> SigningIdentityView {
        match self {
            SigningIdentity::AccountsFileEntry {
                identifier,
                private_key,
                account_address,
                public_key,
            } => SigningIdentityView::AccountsFileEntry {
                identifier: identifier@,
                private_key: private_key@,
                account_address: account_address@,
                public_key: public_key@,
            },
            SigningIdentity::KeystoreEntry {
                keystore_path,
                account_descriptor_path,
            } => SigningIdentityView::KeystoreEntry {
                keystore_path: keystore_path@,
                account_descriptor_path: account_descriptor_path@,
            },
        }
    }
}

#[derive(Clone, Copy, Debug, PartialEq, Eq, Structural)]
pub enum SignerError {
    /// The accounts file has no record of that name on the current network.
    SignerNotFound,
    /// A keystore and a name for the accounts file were both given where
    /// exactly one source must be.
    AmbiguousSignerSource,
}

/// The identity made of a record of the accounts file.
pub open spec fn identity_of(identifier: Seq<char>, rec: AccountRecordView) -> SigningIdentityView {
    SigningIdentityView::AccountsFileEntry {
        identifier,
        private_key: rec.private_key,
        account_address: rec.address,
        public_key: rec.public_key,
    }
}

/// What a resolution gives: the keystore pair where a keystore path is set,
/// else the record of that name on that network, else an error.
pub open spec fn resolved(
    identifier: Seq<char>,
    keystore_path: Seq<char>,
    network: Seq<char>,
    records: Seq<AccountRecordView>,
) -> Result<SigningIdentityView, SignerError> {
    if keystore_path.len() > 0 {
        Ok(
            SigningIdentityView::KeystoreEntry {
                keystore_path,
                account_descriptor_path: identifier,
            },
        )
    } else {
        match lookup(records, network, identifier) {
            Some(rec) => Ok(identity_of(identifier, rec)),
            None => Err(SignerError::SignerNotFound),
        }
    }
}

/// Whether a keystore and a name for the accounts file are both given.
pub open spec fn is_ambiguous(keystore_path: Seq<char>, name: Option<Seq<char>>) -> bool {
    keystore_path.len() > 0 && (name matches Some(n) && n.len() > 0)
}

/// What a resolution gives where exactly one source must be given: an error
/// where both are, else what `resolved` gives for the name, if there is one,
/// or for the identifier.
pub open spec fn resolved_exclusive(
    identifier: Seq<char>,
    name: Option<Seq<char>>,
    keystore_path: Seq<char>,
    network: Seq<char>,
    records: Seq<AccountRecordView>,
) -> Result<SigningIdentityView, SignerError> {
    if is_ambiguous(keystore_path, name) {
        Err(SignerError::AmbiguousSignerSource)
    } else if keystore_path.len() == 0 && name is Some {
        resolved(name->0, keystore_path, network, records)
    } else {
        resolved(identifier, keystore_path, network, records)
    }
}

/// Whether a result of the exec functions is the one the model gives.
pub open spec fn agrees(
    r: Result<SigningIdentity, SignerError>,
    model: Result<SigningIdentityView, SignerError>,
) -> bool {
    match r {
        Ok(id) => model == Ok::<SigningIdentityView, SignerError>(id@),
        Err(e) => model == Err::<SigningIdentityView, SignerError>(e),
    }
}

impl SigningIdentity {
    /// Whether the identity is a keystore pair.
    pub fn is_keystore(&self) -> (r: bool)
        ensures
            r == (self@ is KeystoreEntry),
    {
        match self {
            SigningIdentity::KeystoreEntry { .. } => true,
            SigningIdentity::AccountsFileEntry { .. } => false,
        }
    }

    /// The address of the account, where it is known without opening a file.
    pub fn address(&self) -> (r: Option<Felt>)
        ensures
            match self@ {
                SigningIdentityView::AccountsFileEntry { account_address, .. } => r matches Some(a)
                    && a@ == account_address,
                SigningIdentityView::KeystoreEntry { .. } => r is None,
            },
    {
        match self {
            SigningIdentity::AccountsFileEntry { account_address, .. } => Some(*account_address),
            SigningIdentity::KeystoreEntry { .. } => None,
        }
    }
}

/// Resolves the signing identity. With a keystore path set, the pair of
/// keystore and descriptor, unopened, whatever the accounts file holds.
/// Otherwise the record named `identifier` on `network`; `SignerNotFound`
/// where there is none.
pub fn resolve(identifier: &str, keystore_path: &str, network: &str, store: &AccountsStore) -> (r:
    Result<SigningIdentity, SignerError>)
    ensures
        agrees(r, resolved(identifier@, keystore_path@, network@, store@)),
        r matches Ok(id) ==> (id@ is KeystoreEntry <==> keystore_path@.len() > 0),
        r matches Ok(id) ==> (id@ is AccountsFileEntry <==> keystore_path@.len() == 0),
{
    if !keystore_path.is_empty() {
        Ok(
            SigningIdentity::KeystoreEntry {
                keystore_path: keystore_path.to_owned(),
                account_descriptor_path: identifier.to_owned(),
            },
        )
    } else {
        match store.find(network, identifier) {
            Some(rec) => Ok(
                SigningIdentity::AccountsFileEntry {
                    identifier: identifier.to_owned(),
                    private_key: rec.private_key,
                    account_address: rec.address,
                    public_key: rec.public_key,
                },
            ),
            None => Err(SignerError::SignerNotFound),
        }
    }
}

/// Resolves the signing identity where exactly one source must be given, as
/// for the commands that work on an account itself. `name` is the name given
/// for the accounts file, if any. A keystore path together with a name is
/// `AmbiguousSignerSource`.
pub fn resolve_exclusive(
    identifier: &str,
    name: &Option<String>,
    keystore_path: &str,
    network: &str,
    store: &AccountsStore,
) -> (r: Result<SigningIdentity, SignerError>)
    ensures
        agrees(
            r,
            resolved_exclusive(identifier@, opt_chars(*name), keystore_path@, network@, store@),
        ),
        r matches Err(e) ==> (e == SignerError::AmbiguousSignerSource <==> is_ambiguous(
            keystore_path@,
            opt_chars(*name),
        )),
{
    let keystore_set = !keystore_path.is_empty();
    match name {
        Some(n) => {
            if keystore_set && !n.as_str().is_empty() {
                Err(SignerError::AmbiguousSignerSource)
            } else if keystore_set {
                resolve(identifier, keystore_path, network, store)
            } else {
                resolve(n.as_str(), keystore_path, network, store)
            }
        },
        None => resolve(identifier, keystore_path, network, store),
    }
}

/// A resolution never gives both kinds of identity: an identity is a keystore
/// pair or a record of the accounts file, never both and never neither, and
/// which one is decided by the keystore path alone.
pub proof fn lemma_exactly_one_variant(
    identifier: Seq<char>,
    keystore_path: Seq<char>,
    network: Seq<char>,
    records: Seq<AccountRecordView>,
)
    ensures
        resolved(identifier, keystore_path, network, records) matches Ok(id) ==> (id is KeystoreEntry)
            != (id is AccountsFileEntry),
        resolved(identifier, keystore_path, network, records) matches Ok(id) ==> (id is KeystoreEntry
            <==> keystore_path.len() > 0),
        keystore_path.len() > 0 ==> resolved(identifier, keystore_path, network, records) is Ok,
        keystore_path.len() == 0 ==> (resolved(identifier, keystore_path, network, records) is Ok
            <==> lookup(records, network, identifier) is Some),
{
}

} // verus!
