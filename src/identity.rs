use vstd::prelude::*;

verus! {

/// How a caller is identified.
#[derive(Clone, Copy, Debug, PartialEq, Eq, Structural)]
pub enum AuthMethod {
    /// By the textual network address of the connection.
    Basic,
    /// By the verbatim value of the `Authorization` header.
    Bearer,
}

/// Why no identity could be derived from a request.
#[derive(Clone, Copy, Debug, PartialEq, Eq, Structural)]
pub enum ExtractionError {
    MissingConnectionInfo,
    MissingCredential,
    MalformedCredential,
}

/// A header byte that reads as text: visible ASCII or a horizontal tab.
pub open spec fn is_header_char(b: u8) -> bool {
    (32 <= b && b < 127) || b == 9
}

pub open spec fn is_header_text(b: Seq<u8>) -> bool {
    forall|i: int| 0 <= i < b.len() ==> is_header_char(#[trigger] b[i])
}

/// The characters that ASCII bytes stand for.
pub open spec fn ascii_chars(b: Seq<u8>) -> Seq<char> {
    Seq::new(b.len(), |i: int| b[i] as char)
}

/// The identity a request yields under `method`, given the connection's
/// address (if the server attached one) and the raw `Authorization` header
/// (if present).
pub open spec fn identity_of(
    method: AuthMethod,
    remote: Option<Seq<char>>,
    authorization: Option<Seq<u8>>,
) -> Result<Seq<char>, ExtractionError> {
    match method {
        AuthMethod::Basic => match remote {
            Some(addr) if addr.len() > 0 => Ok(addr),
            _ => Err(ExtractionError::MissingConnectionInfo),
        },
        AuthMethod::Bearer => match authorization {
            Some(raw) if raw.len() > 0 => if is_header_text(raw) {
                Ok(ascii_chars(raw))
            } else {
                Err(ExtractionError::MalformedCredential)
            },
            _ => Err(ExtractionError::MissingCredential),
        },
    }
}

pub open spec fn text_view(o: Option<String>) -> Option<Seq<char>> {
    match o {
        Some(s) => Some(s@),
        None => None,
    }
}

pub open spec fn bytes_view(o: Option<Vec<u8>>) -> Option<Seq<u8>> {
    match o {
        Some(v) => Some(v@),
        None => None,
    }
}

/// Relies on http's `HeaderValue::from_bytes` followed by `HeaderValue::to_str`:
/// the value reads as text exactly when every byte is visible ASCII or a tab,
/// and the text is then those bytes unchanged.
#[verifier::external_body]
fn header_text(raw: &Vec<u8>) -> (r: Option<String>)
    ensures
        r.is_some() <==> is_header_text(raw@),
        r matches Some(s) ==> s@ == ascii_chars(raw@),
{
    match http::HeaderValue::from_bytes(raw) {
        Ok(v) => v.to_str().ok().map(String::from),
        Err(_) => None,
    }
}

/// Derives the caller's identity. The identity is never empty: an empty
/// address or credential counts as a missing one.
pub fn extract_identity(
    method: AuthMethod,
    remote: Option<String>,
    authorization: Option<Vec<u8>>,
) -> (r: Result<String, ExtractionError>)
    ensures
        r matches Ok(id) ==> identity_of(method, text_view(remote), bytes_view(authorization))
            == Ok::<Seq<char>, ExtractionError>(id@),
        r matches Err(e) ==> identity_of(method, text_view(remote), bytes_view(authorization))
            == Err::<Seq<char>, ExtractionError>(e),
{
    match method {
        AuthMethod::Basic => match remote {
            Some(addr) => {
                if addr.as_str().unicode_len() > 0 {
                    Ok(addr)
                } else {
                    Err(ExtractionError::MissingConnectionInfo)
                }
            },
            None => Err(ExtractionError::MissingConnectionInfo),
        },
        AuthMethod::Bearer => match authorization {
            Some(raw) => {
                if raw.len() == 0 {
                    Err(ExtractionError::MissingCredential)
                } else {
                    match header_text(&raw) {
                        Some(text) => Ok(text),
                        None => Err(ExtractionError::MalformedCredential),
                    }
                }
            },
            None => Err(ExtractionError::MissingCredential),
        },
    }
}

} // verus!
