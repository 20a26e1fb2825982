//! The pairing token: the credentials in the form that the device scans.

use crate::credentials::{name_prefix, well_formed, Credentials, CredentialsView, CODE_LEN};
use vstd::prelude::*;

verus! {

/// The token that carries the credentials `v`:
/// `WIFI:T:ADB;S:<device name>;P:<password>;;`, with nothing added and
/// nothing escaped.
pub open spec fn pairing_token(v: CredentialsView) -> Seq<char> {
    "WIFI:T:ADB;S:"@ + v.device_name + ";P:"@ + v.password + ";;"@
}

/// The wire format of a pairing token: header, a valid device name,
/// separator, a valid password, trailer.
pub open spec fn is_pairing_token(s: Seq<char>) -> bool {
    exists|v: CredentialsView| well_formed(v) && s == #[trigger] pairing_token(v)
}

/// Formats the credentials as a pairing token.
pub fn encode(credentials: &Credentials) -> (token: String)
    ensures
        token@ == pairing_token(credentials@),
        is_pairing_token(token@),
{
    let mut token = "WIFI:T:ADB;S:".to_owned();
    token.append(credentials.device_name());
    token.append(";P:");
    token.append(credentials.password());
    token.append(";;");
    assert(well_formed(credentials@));
    token
}

/// The token of well-formed credentials is 41 characters long: 13 of
/// header, 16 of device name, 3 of separator, 7 of password and 2 of
/// trailer.
pub proof fn lemma_token_length(v: CredentialsView)
    requires
        well_formed(v),
    ensures
        pairing_token(v).len() == 41,
{
    reveal_strlit("WIFI:T:ADB;S:");
    reveal_strlit(";P:");
    reveal_strlit(";;");
    reveal_strlit("ADB_WIFI_");
}

/// Well-formed credentials can be read back from their token: two of them
/// with the same token are the same.
pub proof fn lemma_token_determines_credentials(v: CredentialsView, w: CredentialsView)
    requires
        well_formed(v),
        well_formed(w),
        pairing_token(v) == pairing_token(w),
    ensures
        v == w,
{
    reveal_strlit("WIFI:T:ADB;S:");
    reveal_strlit(";P:");
    reveal_strlit(";;");
    reveal_strlit("ADB_WIFI_");
    let n = name_prefix().len() + CODE_LEN;
    assert(pairing_token(v).subrange(13, 13 + n) =~= v.device_name);
    assert(pairing_token(w).subrange(13, 13 + n) =~= w.device_name);
    assert(pairing_token(v).subrange(16 + n, 16 + n + CODE_LEN) =~= v.password);
    assert(pairing_token(w).subrange(16 + n, 16 + n + CODE_LEN) =~= w.password);
}

} // verus!
