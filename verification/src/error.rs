use vstd::prelude::*;

verus! {

/// Why a keystore request was refused before the keystore was reached. The texts carried
/// are those of the outside crate that refused the input.
#[derive(Clone, Debug, PartialEq, Eq)]
pub enum ApiError {
    /// The data is not standard base64 as `base64::decode` reads it; its error text.
    InvalidBase64(String),
    /// A public key is not the hex of a curve point; the error text of `hex` or of
    /// `ed25519_dalek`.
    InvalidPublicKey(String),
    /// One key of the list handed to `encrypt` is not a valid public key; the error text
    /// of the first such key.
    BadKeys(String),
    /// Exporting a key is refused for the ledger signer.
    ExportNotAllowed,
}

impl ApiError {
    /// The text that the error is reported with: the outside crate's text, or the context
    /// that the bridge gives it.
    pub fn message(&self) -> (r: String)
        ensures
            self matches ApiError::InvalidBase64(m) ==> r@ == m@,
            self matches ApiError::InvalidPublicKey(m) ==> r@ == m@,
            self is BadKeys ==> r@ == "Bad keys"@,
            self is ExportNotAllowed ==> r@ == "export_key is not allowed for KeySigner::Ledger"@,
    {
        match self {
            ApiError::InvalidBase64(m) => m.clone(),
            ApiError::InvalidPublicKey(m) => m.clone(),
            ApiError::BadKeys(_) => String::from_str("Bad keys"),
            ApiError::ExportNotAllowed => String::from_str(
                "export_key is not allowed for KeySigner::Ledger",
            ),
        }
    }

    /// The error text under the context, where there is one.
    pub fn cause(&self) -> (r: Option<String>)
        ensures
            self matches ApiError::BadKeys(m) ==> (r matches Some(c) && c@ == m@),
            !(self is BadKeys) ==> r is None,
    {
        match self {
            ApiError::BadKeys(m) => Some(m.clone()),
            _ => None,
        }
    }
}

} // verus!
