//! Constants recognized by clients and servers to describe the protocols and
//! profiles used during communication and encryption.

use vstd::prelude::*;

verus! {

pub const TRANSPORT_PROFILE_URI_BINARY: &'static str =
    "http://opcfoundation.org/UA-Profile/Transport/uatcp-uasc-uabinary";

pub const SECURITY_USER_TOKEN_POLICY_ANONYMOUS: &'static str =
    "http://opcfoundation.org/UA-Profile/Security/UserToken/Anonymous";

pub const SECURITY_USER_TOKEN_POLICY_USERPASS: &'static str =
    "http://opcfoundation.org/UA-Profile/ Security/UserToken-Server/UserNamePassword";

} // verus!
