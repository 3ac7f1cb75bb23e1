//! The persisted server identity: controller address, server name, and the
//! configured core artifact. It is kept on disk as a small keyed text
//! document; reading and writing the document's bytes is the caller's work,
//! the format itself is defined and checked here.

use vstd::prelude::*;
use vstd::string::StringSliceAdditionalSpecFns;
use crate::text::{
    find_from, has_no_char, lemma_find_from_at, lemma_find_from_found, find_char,
    str_starts_with, text_starts_with,
};

verus! {

/// The persisted identity record.
#[derive(Debug, Clone)]
pub struct SubConfig {
    /// The controller address the agent connects to.
    pub uri: String,
    /// The name under which the agent announces itself.
    pub server_name: String,
    /// The file name of the executable core artifact.
    pub server_jar: String,
}

/// The text of the identity document: one `key: value` line per field.
pub open spec fn yml_doc(uri: Seq<char>, name: Seq<char>, jar: Seq<char>) -> Seq<char> {
    "uri: "@ + uri + "\nserver_name: "@ + name + "\nserver_jar: "@ + jar + "\n"@
}

/// What parsing an identity document yields: the three field values, when
/// the text is exactly one document; nothing otherwise.
pub open spec fn spec_parse_yml(s: Seq<char>) -> Option<(Seq<char>, Seq<char>, Seq<char>)> {
    let p0 = "uri: "@;
    let p1 = "\nserver_name: "@;
    let p2 = "\nserver_jar: "@;
    if !text_starts_with(s, p0) {
        None
    } else {
        let i = find_from(s, p0.len() as int, '\n');
        if i < 0 {
            None
        } else {
            let uri = s.subrange(p0.len() as int, i);
            if !text_starts_with(s.skip(i), p1) {
                None
            } else {
                let j = find_from(s, i + p1.len(), '\n');
                if j < 0 {
                    None
                } else {
                    let name = s.subrange(i + p1.len(), j);
                    if !text_starts_with(s.skip(j), p2) {
                        None
                    } else {
                        let k = find_from(s, j + p2.len(), '\n');
                        if k < 0 {
                            None
                        } else if s.len() == k + 1 {
                            Some((uri, name, s.subrange(j + p2.len(), k)))
                        } else {
                            None
                        }
                    }
                }
            }
        }
    }
}

/// The default identity, used when no document can be read.
pub open spec fn is_default_config(c: SubConfig) -> bool {
    &&& c.uri@ == "ws://127.0.0.1:2024/api/subserver"@
    &&& c.server_name@ == "服务器名称"@
    &&& c.server_jar@ == "paper-1.20.6-147.jar"@
}

impl SubConfig {
    /// Field values carry no line break, so each stands on its own line.
    pub open spec fn wf(&self) -> bool {
        &&& has_no_char(self.uri@, '\n')
        &&& has_no_char(self.server_name@, '\n')
        &&& has_no_char(self.server_jar@, '\n')
    }

    /// The identity document for this record.
    pub fn to_yml(&self) -> (r: String)
        ensures
            r@ == yml_doc(self.uri@, self.server_name@, self.server_jar@),
    {
        let mut out = String::from_str("uri: ");
        out.append(self.uri.as_str());
        out.append("\nserver_name: ");
        out.append(self.server_name.as_str());
        out.append("\nserver_jar: ");
        out.append(self.server_jar.as_str());
        out.append("\n");
        out
    }

    /// Fill `out` with the bytes of this record's identity document, ready
    /// to be persisted.
    pub fn write_to_file(&self, out: &mut Vec<u8>)
        ensures
            final(out)@ == vstd::utf8::encode_utf8(
                yml_doc(self.uri@, self.server_name@, self.server_jar@),
            ),
    {
        let doc = self.to_yml();
        let ds = doc.as_str();
        let bytes = ds.as_bytes_vec();
        proof {
            assert(bytes@ == ds.spec_bytes());
        }
        *out = bytes;
    }
}

impl Default for SubConfig {
    /// The identity assumed when none has been persisted yet.
    fn default() -> (r: Self)
        ensures
            is_default_config(r),
    {
        SubConfig {
            uri: String::from_str("ws://127.0.0.1:2024/api/subserver"),
            server_name: String::from_str("服务器名称"),
            server_jar: String::from_str("paper-1.20.6-147.jar"),
        }
    }
}

/// Parse an identity document back into a record.
pub fn parse_yml(s: &str) -> (r: Option<SubConfig>)
    ensures
        r is Some <==> spec_parse_yml(s@) is Some,
        r matches Some(c) ==> spec_parse_yml(s@) == Some((c.uri@, c.server_name@, c.server_jar@))
            && c.wf(),
{
    let n = s.unicode_len();
    let p0 = "uri: ";
    let p1 = "\nserver_name: ";
    let p2 = "\nserver_jar: ";
    if !str_starts_with(s, p0) {
        return None;
    }
    let p0n = p0.unicode_len();
    let i = match find_char(s, p0n, '\n') {
        Some(i) => i,
        None => {
            return None;
        },
    };
    let uri = String::from_str(s.substring_char(p0n, i));
    let tail1 = s.substring_char(i, n);
    proof {
        assert(tail1@ =~= s@.skip(i as int));
    }
    if !str_starts_with(tail1, p1) {
        return None;
    }
    let p1n = p1.unicode_len();
    let j = match find_char(s, i + p1n, '\n') {
        Some(j) => j,
        None => {
            return None;
        },
    };
    let name = String::from_str(s.substring_char(i + p1n, j));
    let tail2 = s.substring_char(j, n);
    proof {
        assert(tail2@ =~= s@.skip(j as int));
    }
    if !str_starts_with(tail2, p2) {
        return None;
    }
    let p2n = p2.unicode_len();
    let k = match find_char(s, j + p2n, '\n') {
        Some(k) => k,
        None => {
            return None;
        },
    };
    if n - k != 1 {
        return None;
    }
    let jar = String::from_str(s.substring_char(j + p2n, k));
    proof {
        lemma_find_from_found(s@, p0n as int, '\n');
        lemma_find_from_found(s@, i + p1n as int, '\n');
        lemma_find_from_found(s@, j + p2n as int, '\n');
        assert(has_no_char(uri@, '\n'));
        assert(has_no_char(name@, '\n'));
        assert(has_no_char(jar@, '\n'));
    }
    Some(SubConfig { uri, server_name: name, server_jar: jar })
}

/// What the agent starts from: the persisted document's record when one
/// could be read and parsed, else the default identity, together with a
/// flag saying whether the default must be written back to disk.
pub fn load_or_default(contents: Option<&str>) -> (r: (SubConfig, bool))
    ensures
        match contents {
            Some(s) => match spec_parse_yml(s@) {
                Some(f) => !r.1 && r.0.uri@ == f.0 && r.0.server_name@ == f.1
                    && r.0.server_jar@ == f.2,
                None => r.1 && is_default_config(r.0),
            },
            None => r.1 && is_default_config(r.0),
        },
{
    match contents {
        Some(s) => match parse_yml(s) {
            Some(c) => (c, false),
            None => (SubConfig::default(), true),
        },
        None => (SubConfig::default(), true),
    }
}

/// Round trip of the identity document: the document written for a record
/// whose fields hold no line break parses back to exactly those fields.
pub proof fn lemma_yml_roundtrip(uri: Seq<char>, name: Seq<char>, jar: Seq<char>)
    requires
        has_no_char(uri, '\n'),
        has_no_char(name, '\n'),
        has_no_char(jar, '\n'),
    ensures
        spec_parse_yml(yml_doc(uri, name, jar)) == Some((uri, name, jar)),
{
    let p0 = "uri: "@;
    let p1 = "\nserver_name: "@;
    let p2 = "\nserver_jar: "@;
    let t = "\n"@;
    let s = yml_doc(uri, name, jar);
    reveal_strlit("uri: ");
    reveal_strlit("\nserver_name: ");
    reveal_strlit("\nserver_jar: ");
    reveal_strlit("\n");
    assert(p0.len() == 5);
    assert(p1.len() == 14);
    assert(p2.len() == 13);
    assert(t.len() == 1);
    let a = p0.len() as int;
    let b = a + uri.len();
    let c = b + p1.len();
    let d = c + name.len();
    let e = d + p2.len();
    let f = e + jar.len();
    assert(s.len() == f + 1);
    assert(forall|k: int| 0 <= k < a ==> s[k] == p0[k]);
    assert(s.subrange(0, a) =~= p0);
    assert(text_starts_with(s, p0));
    assert(forall|k: int| a <= k < b ==> s[k] == uri[k - a]);
    assert(forall|k: int| b <= k < c ==> s[k] == p1[k - b]);
    assert(forall|k: int| c <= k < d ==> s[k] == name[k - c]);
    assert(forall|k: int| d <= k < e ==> s[k] == p2[k - d]);
    assert(forall|k: int| e <= k < f ==> s[k] == jar[k - e]);
    assert(forall|k: int| f <= k < s.len() ==> s[k] == t[k - f]);
    assert(p1[0] == '\n');
    assert(p2[0] == '\n');
    assert(t[0] == '\n');
    assert(forall|x: int| 1 <= x < p1.len() ==> p1[x] != '\n');
    assert(forall|x: int| 1 <= x < p2.len() ==> p2[x] != '\n');
    assert(forall|x: int| a <= x < b ==> s[x] != '\n');
    assert(s[b] == '\n');
    lemma_find_from_at(s, a, '\n', b);
    assert(find_from(s, a, '\n') == b);
    assert(s.subrange(a, b) =~= uri);
    assert(forall|x: int| 0 <= x < p1.len() ==> s.skip(b)[x] == p1[x]);
    assert(s.skip(b).subrange(0, p1.len() as int) =~= p1);
    assert(text_starts_with(s.skip(b), p1));
    assert(forall|x: int| c <= x < d ==> s[x] != '\n');
    assert(s[d] == '\n');
    lemma_find_from_at(s, c, '\n', d);
    assert(find_from(s, c, '\n') == d);
    assert(s.subrange(c, d) =~= name);
    assert(forall|x: int| 0 <= x < p2.len() ==> s.skip(d)[x] == p2[x]);
    assert(s.skip(d).subrange(0, p2.len() as int) =~= p2);
    assert(text_starts_with(s.skip(d), p2));
    assert(forall|x: int| e <= x < f ==> s[x] != '\n');
    assert(s[f] == '\n');
    lemma_find_from_at(s, e, '\n', f);
    assert(find_from(s, e, '\n') == f);
    assert(s.subrange(e, f) =~= jar);
}

} // verus!
