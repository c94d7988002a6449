//! The reverse-proxy configuration text the agent maintains for its
//! domains: one block per domain, appended when a domain is added and cut
//! out when it is removed. Reading and writing the file, and reloading
//! the proxy, happen outside; the text transformations are verified here.

use vstd::prelude::*;

use crate::text::{contains_str, find_str, spec_contains_at, spec_dec, u16_to_dec};

verus! {

/// Where the proxy's configuration file lives.
#[derive(Clone)]
pub struct CaddySettings {
    pub caddyfile_path: String,
}

/// The agent's handle on the proxy configuration.
pub struct Caddy {
    settings: CaddySettings,
}

/// The opening marker of one domain's block: the domain, a space, an
/// opening brace.
pub open spec fn spec_block_marker(domain: Seq<char>) -> Seq<char> {
    domain + " {"@
}

/// One domain's configuration block: a blank line, the marker, the
/// forward to the local port, a closing brace.
pub open spec fn spec_block(domain: Seq<char>, port: int) -> Seq<char> {
    "\n"@ + domain + " {\n    reverse_proxy localhost:"@ + spec_dec(port) + "\n}\n"@
}

impl Caddy {
    /// The configured file path.
    pub closed spec fn path(self) -> Seq<char> {
        self.settings.caddyfile_path@
    }

    /// A handle with the given settings.
    pub fn new(settings: CaddySettings) -> (r: Caddy)
        ensures
            r.path() == settings.caddyfile_path@,
    {
        Caddy { settings }
    }

    /// The configured file path, for the caller that reads and writes it.
    pub fn caddyfile_path(&self) -> (r: &String)
        ensures
            r@ == self.path(),
    {
        &self.settings.caddyfile_path
    }

    /// The block to append for one domain forwarding to a local port.
    pub fn domain_block(domain: &str, port: u16) -> (r: String)
        ensures
            r@ == spec_block(domain@, port as int),
    {
        String::from_str("\n").concat(domain).concat(" {\n    reverse_proxy localhost:").concat(
            u16_to_dec(port).as_str(),
        ).concat("\n}\n")
    }

    /// Whether the configuration already holds a block for this domain.
    /// The test matches the marker anywhere in the text, so a domain that
    /// is a suffix of another's marker line can be mistaken for it.
    pub fn has_domain(content: &str, domain: &str) -> (r: bool)
        ensures
            r <==> exists|i: int| spec_contains_at(content@, spec_block_marker(domain@), i),
    {
        let marker = String::from_str(domain).concat(" {");
        proof {
            reveal_strlit(" {");
            assert(marker@ == spec_block_marker(domain@));
        }
        contains_str(content, marker.as_str())
    }

    /// The configuration with one domain's block removed: everything from
    /// the first marker through the next blank-line-brace terminator is
    /// cut. `None` when no marker, or no terminator after it, is found;
    /// the file then stays as it is.
    pub fn remove_domain_block(content: &str, domain: &str) -> (r: Option<String>)
        ensures
            r is None ==> (forall|i: int|
                !spec_contains_at(content@, spec_block_marker(domain@), i)) || (exists|i: int|
                {
                    &&& spec_contains_at(content@, spec_block_marker(domain@), i)
                    &&& (forall|j: int|
                        0 <= j < i ==> !spec_contains_at(content@, spec_block_marker(domain@), j))
                    &&& (forall|k: int| k >= i ==> !spec_contains_at(content@, "\n}\n"@, k))
                }),
            r matches Some(out) ==> exists|i: int, k: int|
                {
                    &&& spec_contains_at(content@, spec_block_marker(domain@), i)
                    &&& (forall|j: int|
                        0 <= j < i ==> !spec_contains_at(content@, spec_block_marker(domain@), j))
                    &&& k >= i
                    &&& spec_contains_at(content@, "\n}\n"@, k)
                    &&& (forall|j: int| i <= j < k ==> !spec_contains_at(content@, "\n}\n"@, j))
                    &&& out@ == content@.take(i) + content@.skip(k + 3)
                },
    {
        let marker = String::from_str(domain).concat(" {");
        proof {
            reveal_strlit(" {");
            assert(marker@ == spec_block_marker(domain@));
        }
        let start = match find_str(content, marker.as_str()) {
            Some(i) => i,
            None => {
                return None;
            },
        };
        let n = content.unicode_len();
        let tail = content.substring_char(start, n);
        proof {
            reveal_strlit("\n}\n");
            assert(tail@ =~= content@.skip(start as int));
        }
        let close = match find_str(tail, "\n}\n") {
            Some(off) => start + off,
            None => {
                proof {
                    let ghost m = marker@;
                    assert forall|k: int|
                        k >= start implies !spec_contains_at(content@, "\n}\n"@, k) by {
                        if spec_contains_at(content@, "\n}\n"@, k) {
                            assert(tail@.subrange(k - start, k - start + 3) =~= content@.subrange(
                                k,
                                k + 3,
                            ));
                            assert(spec_contains_at(tail@, "\n}\n"@, k - start));
                        }
                    }
                }
                return None;
            },
        };
        let head = content.substring_char(0, start);
        let rest = content.substring_char(close + 3, n);
        proof {
            assert(head@ =~= content@.take(start as int));
            assert(rest@ =~= content@.skip(close + 3));
            let off = close - start;
            assert(spec_contains_at(tail@, "\n}\n"@, off as int));
            assert(content@.subrange(close as int, close + 3) =~= tail@.subrange(
                off as int,
                off + 3,
            ));
            assert(spec_contains_at(content@, "\n}\n"@, close as int));
            assert forall|j: int|
                start <= j < close implies !spec_contains_at(content@, "\n}\n"@, j) by {
                if spec_contains_at(content@, "\n}\n"@, j) {
                    assert(tail@.subrange(j - start, j - start + 3) =~= content@.subrange(
                        j,
                        j + 3,
                    ));
                    assert(spec_contains_at(tail@, "\n}\n"@, j - start));
                }
            }
        }
        let out = String::from_str(head).concat(rest);
        proof {
            assert(out@ == content@.take(start as int) + content@.skip(close + 3));
            assert(spec_contains_at(content@, spec_block_marker(domain@), start as int)
                && (forall|j: int|
                0 <= j < start ==> !spec_contains_at(content@, spec_block_marker(domain@), j))
                && close >= start && spec_contains_at(content@, "\n}\n"@, close as int) && (
            forall|j: int| start <= j < close ==> !spec_contains_at(content@, "\n}\n"@, j))
                && out@ == content@.take(start as int) + content@.skip(close + 3));
        }
        Some(out)
    }
}

} // verus!
