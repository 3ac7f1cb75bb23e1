//! Installing a new core artifact: decode the commanded name, update the
//! identity record, and derive where to fetch the artifact from and where to
//! put it. The transfer itself is the caller's work; nothing here touches
//! the network.

use vstd::prelude::*;
use vstd::utf8::{decode_utf8, valid_utf8};
use crate::config::SubConfig;
use crate::text::{str_eq, str_starts_with, text_starts_with};

verus! {

/// The controller address with its channel scheme substituted by the plain
/// transport scheme: a leading `ws` becomes `http` (so `wss` becomes
/// `https`); anything else is left alone.
pub open spec fn scheme_rewritten(u: Seq<char>) -> Seq<char> {
    if text_starts_with(u, "ws"@) {
        "http"@ + u.skip(2)
    } else {
        u
    }
}

/// The artifact's base name: the configured file name without its `.jar`
/// extension, when it has one.
pub open spec fn jar_base_name(j: Seq<char>) -> Seq<char> {
    if j.len() >= 4 && j.subrange(j.len() - 4, j.len() as int) == ".jar"@ {
        j.take(j.len() - 4)
    } else {
        j
    }
}

/// Relies on `String::from_utf8`: it accepts exactly the valid UTF-8 byte
/// sequences, and decodes them.
#[verifier::external_body]
fn bytes_to_string(b: Vec<u8>) -> (r: Option<String>)
    ensures
        match r {
            Some(s) => valid_utf8(b@) && s@ == decode_utf8(b@),
            None => !valid_utf8(b@),
        },
{
    String::from_utf8(b).ok()
}

/// The controller address under the plain transport scheme.
pub fn http_uri(uri: &str) -> (r: String)
    ensures
        r@ == scheme_rewritten(uri@),
{
    if str_starts_with(uri, "ws") {
        proof {
            reveal_strlit("ws");
        }
        let n = uri.unicode_len();
        let mut out = String::from_str("http");
        out.append(uri.substring_char(2, n));
        proof {
            assert(uri@.subrange(2, uri@.len() as int) =~= uri@.skip(2));
        }
        out
    } else {
        String::from_str(uri)
    }
}

/// The configured artifact's base name.
pub fn base_name(jar: &str) -> (r: String)
    ensures
        r@ == jar_base_name(jar@),
{
    let n = jar.unicode_len();
    if n >= 4 {
        let sfx = jar.substring_char(n - 4, n);
        if str_eq(sfx, ".jar") {
            let r = String::from_str(jar.substring_char(0, n - 4));
            proof {
                assert(jar@.subrange(0, jar@.len() - 4) =~= jar@.take(jar@.len() - 4));
            }
            return r;
        }
    }
    String::from_str(jar)
}

/// The endpoint the new core is fetched from: the controller address under
/// the plain scheme, the fixed download route, and the artifact's base name
/// as its query parameter.
pub fn download_url(config: &SubConfig) -> (r: String)
    ensures
        r@ == scheme_rewritten(config.uri@) + "/down_server_jar?file_name="@
            + jar_base_name(config.server_jar@),
{
    let mut out = http_uri(config.uri.as_str());
    out.append("/down_server_jar?file_name=");
    let base = base_name(config.server_jar.as_str());
    out.append(base.as_str());
    out
}

/// Where the fetched artifact is written: under the working directory for
/// the supervised process, with its extension restored.
pub fn jar_dest_path(base: &str) -> (r: String)
    ensures
        r@ == "server/"@ + base@ + ".jar"@,
{
    let mut out = String::from_str("server/");
    out.append(base);
    out.append(".jar");
    out
}

/// A core-accept command's effect on the identity: when the payload is a
/// UTF-8 name, the configured artifact becomes that name with its extension
/// restored, and the decoded name is handed back for the transfer; an
/// undecodable payload changes nothing. Address and server name are never
/// touched.
pub fn accept_core(config: &mut SubConfig, payload: Vec<u8>) -> (r: Option<String>)
    ensures
        valid_utf8(payload@) ==> {
            &&& r matches Some(base) && base@ == decode_utf8(payload@)
            &&& final(config).server_jar@ == decode_utf8(payload@) + ".jar"@
            &&& final(config).uri == old(config).uri
            &&& final(config).server_name == old(config).server_name
        },
        !valid_utf8(payload@) ==> r is None && *final(config) == *old(config),
{
    match bytes_to_string(payload) {
        Some(name) => {
            let mut jar = String::from_str(name.as_str());
            jar.append(".jar");
            config.server_jar = jar;
            Some(name)
        },
        None => None,
    }
}

} // verus!
