use vstd::prelude::*;
use vstd::std_specs::convert::FromSpecImpl;
use vstd::string::{to_string_from_display_ensures, StringExecFns};

verus! {

/// What can go wrong when a cipher is made or a message is decrypted.
#[derive(Debug)]
pub enum AESError {
    /// The encrypted message is not valid Base64 text.
    InvalidBase64(base64::DecodeError),
    /// The decrypted bytes are not valid UTF-8 text.
    InvalidUTF8(std::string::FromUtf8Error),
    /// The key is not exactly 16 bytes long.
    InvalidKeyLength,
}

/// The kind of an `AESError`, without the value that a decoder attached to it.
#[derive(Debug, Clone, Copy, PartialEq, Eq, Structural)]
pub enum AESErrorKind {
    InvalidBase64,
    InvalidUTF8,
    InvalidKeyLength,
}

impl AESError {
    /// The kind of this error.
    pub open spec fn kind_spec(self) -> AESErrorKind {
        match self {
            AESError::InvalidBase64(_) => AESErrorKind::InvalidBase64,
            AESError::InvalidUTF8(_) => AESErrorKind::InvalidUTF8,
            AESError::InvalidKeyLength => AESErrorKind::InvalidKeyLength,
        }
    }

    /// Whether `text` describes this error: a fixed text for a wrong key
    /// length, and for the other kinds a fixed heading followed by what the
    /// decoder's own error displays.
    pub open spec fn is_message(self, text: Seq<char>) -> bool {
        match self {
            AESError::InvalidBase64(err) => exists|detail: String|
                #[trigger] to_string_from_display_ensures::<base64::DecodeError>(&err, detail)
                    && text == "Base64 decoding error: "@ + detail@,
            AESError::InvalidUTF8(err) => exists|detail: String|
                #[trigger] to_string_from_display_ensures::<std::string::FromUtf8Error>(
                    &err,
                    detail,
                ) && text == "UTF-8 decoding error: "@ + detail@,
            AESError::InvalidKeyLength => text == "Invalid key length"@,
        }
    }

    /// Returns the kind of this error.
    pub fn kind(&self) -> (kind: AESErrorKind)
        ensures
            kind == self.kind_spec(),
    {
        match self {
            AESError::InvalidBase64(_) => AESErrorKind::InvalidBase64,
            AESError::InvalidUTF8(_) => AESErrorKind::InvalidUTF8,
            AESError::InvalidKeyLength => AESErrorKind::InvalidKeyLength,
        }
    }

    /// Describes this error in words.
    pub fn message(&self) -> (text: String)
        ensures
            self.is_message(text@),
    {
        match self {
            AESError::InvalidBase64(err) => {
                let mut text = String::from_str("Base64 decoding error: ");
                let detail = err.to_string();
                text.append(detail.as_str());
                text
            },
            AESError::InvalidUTF8(err) => {
                let mut text = String::from_str("UTF-8 decoding error: ");
                let detail = err.to_string();
                text.append(detail.as_str());
                text
            },
            AESError::InvalidKeyLength => String::from_str("Invalid key length"),
        }
    }
}

impl From<base64::DecodeError> for AESError {
    fn from(err: base64::DecodeError) -> (out: Self) {
        AESError::InvalidBase64(err)
    }
}

impl FromSpecImpl<base64::DecodeError> for AESError {
    open spec fn obeys_from_spec() -> bool {
        true
    }

    open spec fn from_spec(err: base64::DecodeError) -> Self {
        AESError::InvalidBase64(err)
    }
}

impl From<std::string::FromUtf8Error> for AESError {
    fn from(err: std::string::FromUtf8Error) -> (out: Self) {
        AESError::InvalidUTF8(err)
    }
}

impl FromSpecImpl<std::string::FromUtf8Error> for AESError {
    open spec fn obeys_from_spec() -> bool {
        true
    }

    open spec fn from_spec(err: std::string::FromUtf8Error) -> Self {
        AESError::InvalidUTF8(err)
    }
}

} // verus!
