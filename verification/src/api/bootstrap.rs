//! The administrator's first token.
//!
//! A host that starts with an empty token store mints one token that may do everything and leaves
//! it in a file that only its owner may read. A host that has tokens already writes nothing.

use vstd::prelude::*;

verus! {

/// The label of the administrator's token.
pub const ADMIN_LABEL: &'static str = "admin";

/// The policy of the administrator's token: every scope.
pub const ADMIN_SCOPE_JSON: &'static str = "[\"*\"]";

/// The file in the state directory that holds the token.
pub const ADMIN_TOKEN_FILE: &'static str = "admin-token";

/// The permissions of that file: its owner may read and write it.
pub const ADMIN_TOKEN_MODE: u32 = 0o600;

/// A token that was just minted. Its text is not kept anywhere else.
#[derive(Debug)]
pub struct IssuedToken {
    pub id: String,
    pub plaintext: String,
}

/// A file to write, with its permissions set before anything is in it.
#[derive(Debug)]
pub struct SecretFile {
    pub name: &'static str,
    pub mode: u32,
    pub contents: String,
}

/// Whether a file is the one for a token, if one was minted.
pub open spec fn is_admin_file(
    r: Option<(SecretFile, IssuedToken)>,
    minted: Option<IssuedToken>,
) -> bool {
    match minted {
        None => r is None,
        Some(token) => r matches Some((file, reported)) && reported == token && file.name@
            == ADMIN_TOKEN_FILE@ && file.mode == ADMIN_TOKEN_MODE && file.contents@
            == token.plaintext@ + "\n"@,
    }
}

/// What follows from trying to mint the administrator's token. `minted` is the token that the
/// store minted because it was empty; a store that had tokens mints none. The result is the file
/// to write and the token to report.
pub fn ensure_admin_token(minted: Option<IssuedToken>) -> (r: Option<(SecretFile, IssuedToken)>)
    ensures
        is_admin_file(r, minted),
{
    match minted {
        None => None,
        Some(token) => {
            let mut contents = token.plaintext.clone();
            contents.append("\n");
            let file = SecretFile { name: ADMIN_TOKEN_FILE, mode: ADMIN_TOKEN_MODE, contents };
            Some((file, token))
        },
    }
}

} // verus!
