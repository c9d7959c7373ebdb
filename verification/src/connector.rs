//! Rules of the HTTP client connector.
use vstd::prelude::*;
use vstd::string::StringSliceAdditionalSpecFns;

verus! {

/// The port connected to when a URI of any scheme but https names none.
pub const HTTP_PORT: u16 = 80;

/// The port connected to when an https URI names none.
pub const HTTPS_PORT: u16 = 443;

/// The bytes of the scheme name `https`.
pub open spec fn spec_https() -> Seq<u8> {
    seq![104u8, 116u8, 116u8, 112u8, 115u8]
}

/// The default port of a URI scheme: 443 for https, 80 otherwise.
pub open spec fn spec_default_port(scheme: Option<Seq<u8>>) -> u16 {
    match scheme {
        Some(s) => if s == spec_https() { HTTPS_PORT } else { HTTP_PORT },
        None => HTTP_PORT,
    }
}

/// Whether `scheme` is `https`.
fn is_https(scheme: &str) -> (b: bool)
    ensures
        b == (scheme.spec_bytes() == spec_https()),
{
    let bytes = scheme.as_bytes();
    if bytes.len() != 5 {
        assert(bytes@.len() != spec_https().len());
        return false;
    }
    let b = bytes[0] == 104u8 && bytes[1] == 116u8 && bytes[2] == 116u8 && bytes[3] == 112u8
        && bytes[4] == 115u8;
    if b {
        assert(bytes@ =~= spec_https());
    } else {
        assert(bytes@ != spec_https()) by {
            if bytes@ == spec_https() {
                assert(bytes@[0] == spec_https()[0]);
                assert(bytes@[1] == spec_https()[1]);
                assert(bytes@[2] == spec_https()[2]);
                assert(bytes@[3] == spec_https()[3]);
                assert(bytes@[4] == spec_https()[4]);
            }
        }
    }
    b
}

/// The port the connector connects to for a URI with scheme `scheme` and port `port`:
/// that port, or else the scheme's default port, 443 for https and 80 otherwise.
pub fn connect_port(scheme: Option<&str>, port: Option<u16>) -> (p: u16)
    ensures
        p == match port {
            Some(q) => q,
            None => spec_default_port(
                match scheme {
                    Some(s) => Some(s.spec_bytes()),
                    None => None,
                },
            ),
        },
{
    match port {
        Some(p) => p,
        None => match scheme {
            Some(s) => if is_https(s) {
                HTTPS_PORT
            } else {
                HTTP_PORT
            },
            None => HTTP_PORT,
        },
    }
}

} // verus!
