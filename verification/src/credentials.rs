//! The login and the password of the site's account.

use vstd::prelude::*;
use crate::error::Error;
use crypto::digest::Digest;

verus! {

/// The SHA-1 digest of a text's UTF-8 bytes, in hexadecimal.
pub uninterp spec fn sha1_hex(text: Seq<char>) -> Seq<char>;

/// Digests a text with `crypto::sha1::Sha1`, through `Digest::input_str`
/// and `Digest::result_str`.
///
/// The result is the hexadecimal text that `result_str` returns once the
/// text was fed to a fresh hasher.
#[verifier::external_body]
fn sha1_hex_of(text: &str) -> (digest: String)
    ensures
        digest@ == sha1_hex(text@),
{
    let mut hasher = crypto::sha1::Sha1::new();
    hasher.input_str(text);
    hasher.result_str()
}

/// A password in clear.
pub struct WanaplayPassword {
    pub secret_password: String,
}

impl WanaplayPassword {
    /// The password as the login form carries it: its SHA-1 digest in
    /// hexadecimal.
    pub fn crypted(&self) -> (digest: String)
        ensures
            digest@ == sha1_hex(self.secret_password@),
    {
        sha1_hex_of(self.secret_password.as_str())
    }
}

/// The account that books.
pub struct WanaplayCredentials {
    pub login: String,
    pub password: WanaplayPassword,
}

/// The credentials made of the two configured values, which must both be
/// there.
pub fn get_credentials(login: Option<String>, password: Option<String>) -> (credentials: Result<
    WanaplayCredentials,
    Error,
>)
    ensures
        credentials.is_ok() == (login.is_some() && password.is_some()),
        credentials matches Ok(c) ==> c.login@ == login.unwrap()@ && c.password.secret_password@
            == password.unwrap()@,
        credentials matches Err(e) ==> e == Error::MissingCredentials,
{
    match (login, password) {
        (Some(login), Some(password)) => Ok(
            WanaplayCredentials { login, password: WanaplayPassword { secret_password: password } },
        ),
        _ => Err(Error::MissingCredentials),
    }
}

} // verus!
