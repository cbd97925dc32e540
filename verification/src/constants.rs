//! Limits and names that the stack uses throughout.

use vstd::prelude::*;

verus! {

/// Default port number of a server. A discovery server uses it; other
/// servers would normally run on another port, but it is what an
/// `opc.tcp://` URL without a port means.
pub const DEFAULT_OPC_UA_SERVER_PORT: u16 = 4840;

/// Maximum number of elements in an array.
pub const MAX_ARRAY_LENGTH: usize = 100000;

/// Maximum size of a string in bytes.
pub const MAX_STRING_LENGTH: usize = 65536;

/// Maximum size of a byte string in bytes.
pub const MAX_BYTE_STRING_LENGTH: usize = 65536;

/// Maximum size of a certificate to send.
pub const MAX_CERTIFICATE_LENGTH: u32 = 32768;

/// URI supplied for the None security policy.
pub const SECURITY_POLICY_NONE_URI: &'static str = "http://opcfoundation.org/UA/SecurityPolicy#None";

/// URI supplied for the `Basic128Rsa15` security policy.
pub const SECURITY_POLICY_BASIC_128_RSA_15_URI: &'static str =
    "http://opcfoundation.org/UA/SecurityPolicy#Basic128Rsa15";

/// URI supplied for the `Basic256` security policy.
pub const SECURITY_POLICY_BASIC_256_URI: &'static str =
    "http://opcfoundation.org/UA/SecurityPolicy#Basic256";

/// URI supplied for the `Basic256Sha256` security policy.
pub const SECURITY_POLICY_BASIC_256_SHA_256_URI: &'static str =
    "http://opcfoundation.org/UA/SecurityPolicy#Basic256Sha256";

/// String used as shorthand in config files, debug etc. for the None
/// security policy.
pub const SECURITY_POLICY_NONE: &'static str = "None";

/// String used as shorthand in config files, debug etc. for the
/// `Basic128Rsa15` security policy.
pub const SECURITY_POLICY_BASIC_128_RSA_15: &'static str = "Basic128Rsa15";

/// String used as shorthand in config files, debug etc. for the `Basic256`
/// security policy.
pub const SECURITY_POLICY_BASIC_256: &'static str = "Basic256";

/// String used as shorthand in config files, debug etc. for the
/// `Basic256Sha256` security policy.
pub const SECURITY_POLICY_BASIC_256_SHA_256: &'static str = "Basic256Sha256";

} // verus!
