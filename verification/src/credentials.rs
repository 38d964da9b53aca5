//! Which SSH key the routine offers when a remote asks for credentials.

use vstd::prelude::*;

verus! {

/// An SSH key to authenticate with: no public key file is named and no
/// passphrase is used.
#[derive(Clone, Debug, PartialEq, Eq)]
pub struct SshKey {
    /// The user to log in as.
    pub username: String,
    /// The file that holds the private key.
    pub private_key: String,
}

/// Why no key can be offered.
#[derive(Clone, Copy, Debug, PartialEq, Eq, Structural)]
pub enum CredentialError {
    /// The remote's URL names no user.
    NoUsername,
    /// The home directory of the invoking user is not known.
    NoHome,
}

/// Where the private key of a user lives, given the user's home directory.
pub open spec fn private_key_path(home: Seq<char>) -> Seq<char> {
    home + "/.ssh/id_rsa"@
}

/// The key to offer to a remote: the user that the remote's URL names, with
/// the private key `.ssh/id_rsa` under `home`. A missing user is reported
/// before a missing home directory.
pub fn ssh_key(username_from_url: Option<&str>, home: Option<&str>) -> (key: Result<
    SshKey,
    CredentialError,
>)
    ensures
        match key {
            Ok(k) => username_from_url matches Some(user) && home matches Some(dir) && k.username@
                == user@ && k.private_key@ == private_key_path(dir@),
            Err(CredentialError::NoUsername) => username_from_url is None,
            Err(CredentialError::NoHome) => username_from_url is Some && home is None,
        },
{
    let user = match username_from_url {
        Some(user) => user,
        None => {
            return Err(CredentialError::NoUsername);
        },
    };
    let dir = match home {
        Some(dir) => dir,
        None => {
            return Err(CredentialError::NoHome);
        },
    };
    let mut private_key = String::from_str(dir);
    private_key.append("/.ssh/id_rsa");
    Ok(SshKey { username: String::from_str(user), private_key })
}

} // verus!
