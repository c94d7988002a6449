//! Host resolution for the mesh proxy: map an incoming `Host` header to an
//! upstream `(host, port, owning tenant)`. Managed hosts in the internal
//! zone are looked up in the service directory (an external store whose
//! answer is passed in); everything else falls back to the deterministic
//! legacy rule `8000 + CRC32(project_id) % 1000`.

use vstd::prelude::*;

use crate::text::{
    count_char, ends_with, find_char, parse_port, rfind_str, spec_contains_at, spec_count_char,
    spec_ends_with, spec_parse_decimal, str_eq,
};
use vstd::string::StringSliceAdditionalSpecFns;

verus! {

/// The CRC-32 (IEEE) checksum of a byte string.
pub uninterp spec fn crc32_of(data: Seq<u8>) -> u32;

/// Relies on crc32fast::hash: the CRC-32 checksum depends on the bytes
/// alone.
#[verifier::external_body]
fn crc32(data: &[u8]) -> (r: u32)
    ensures
        r == crc32_of(data@),
{
    crc32fast::hash(data)
}

/// The legacy upstream port for a project: deterministic in the project id.
pub open spec fn spec_legacy_port(id: Seq<u8>) -> int {
    8000 + crc32_of(id) % 1000
}

/// Compute the legacy upstream port, always within 8000..9000.
pub fn legacy_port(project_id: &str) -> (r: u16)
    ensures
        r == spec_legacy_port(project_id.spec_bytes()),
        8000 <= r < 9000,
{
    let sum = crc32(project_id.as_bytes());
    8000 + (sum % 1000) as u16
}

/// A host with any `:port` suffix removed: the longest prefix free of ':'.
pub open spec fn spec_strip_port(h: Seq<char>) -> Seq<char>
    decreases h.len(),
{
    if h.len() == 0 {
        h
    } else if h.first() == ':' {
        seq![]
    } else {
        seq![h.first()] + spec_strip_port(h.drop_first())
    }
}

/// The colon-free prefix up to position `i` is exactly the stripped host.
proof fn lemma_strip_port_take(h: Seq<char>, i: int)
    requires
        0 <= i <= h.len(),
        forall|j: int| 0 <= j < i ==> h[j] != ':',
        i < h.len() ==> h[i] == ':',
    ensures
        spec_strip_port(h) == h.take(i),
    decreases i,
{
    if h.len() == 0 {
        assert(spec_strip_port(h) =~= h.take(i));
    } else if i == 0 {
        assert(spec_strip_port(h) =~= h.take(0));
    } else {
        lemma_strip_port_take(h.drop_first(), i - 1);
        assert(h.drop_first().take(i - 1) =~= h.take(i).drop_first());
        assert(spec_strip_port(h) =~= h.take(i));
    }
}

/// Remove a trailing `:port`, keeping everything before the first colon.
pub fn strip_port<'a>(host: &'a str) -> (r: &'a str)
    ensures
        r@ == spec_strip_port(host@),
{
    match find_char(host, ':') {
        Some(i) => {
            let head = host.substring_char(0, i);
            proof {
                lemma_strip_port_take(host@, i as int);
                assert(head@ =~= host@.take(i as int));
            }
            head
        },
        None => {
            proof {
                lemma_strip_port_take(host@, host@.len() as int);
                assert(host@.take(host@.len() as int) =~= host@);
            }
            host
        },
    }
}

/// How a stripped host is routed.
pub enum HostClass {
    /// In the managed internal zone, with at least two labels before the
    /// zone: the full host keys a service-directory lookup.
    Managed { host: String },
    /// In the internal zone without the label depth for a directory key:
    /// legacy rule over the prefix.
    LegacyInternal { project_id: String },
    /// In the wildcard application zone: legacy rule over the part after
    /// the last `--`, or the whole prefix.
    App { project_id: String },
    /// Neither zone: not found.
    Unknown,
}

/// The managed-zone test on a stripped host: internal-zone suffix with at
/// least four labels.
pub open spec fn spec_is_managed(h: Seq<char>) -> bool {
    spec_ends_with(h, ".zexio.internal"@) && spec_count_char(h, '.') >= 3
}

/// The legacy internal test on a stripped host.
pub open spec fn spec_is_legacy_internal(h: Seq<char>) -> bool {
    spec_ends_with(h, ".zexio.internal"@) && spec_count_char(h, '.') < 3
}

/// The application-zone test on a stripped host.
pub open spec fn spec_is_app(h: Seq<char>) -> bool {
    !spec_ends_with(h, ".zexio.internal"@) && spec_ends_with(h, ".zexio.app"@)
}

/// The internal-zone prefix: the host with the zone suffix removed.
pub open spec fn spec_internal_prefix(h: Seq<char>) -> Seq<char> {
    h.take(h.len() - ".zexio.internal"@.len())
}

/// The application-zone prefix: the host with the zone suffix removed.
pub open spec fn spec_app_prefix(h: Seq<char>) -> Seq<char> {
    h.take(h.len() - ".zexio.app"@.len())
}

/// Classify a raw `Host` header value after stripping any port suffix.
pub fn classify_host(host: &str) -> (r: HostClass)
    ensures
        ({
            let h = spec_strip_port(host@);
            &&& (r is Managed <==> spec_is_managed(h))
            &&& (r matches HostClass::Managed { host: k } ==> k@ == h)
            &&& (r is LegacyInternal <==> spec_is_legacy_internal(h))
            &&& (r matches HostClass::LegacyInternal { project_id } ==> project_id@
                == spec_internal_prefix(h))
            &&& (r is App <==> spec_is_app(h))
            &&& (r matches HostClass::App { project_id } ==> {
                let p = spec_app_prefix(h);
                &&& ((exists|i: int| spec_contains_at(p, "--"@, i)) ==> exists|i: int|
                    {
                        &&& spec_contains_at(p, "--"@, i)
                        &&& (forall|j: int| j > i ==> !spec_contains_at(p, "--"@, j))
                        &&& project_id@ == p.skip(i + 2)
                    })
                &&& ((forall|i: int| !spec_contains_at(p, "--"@, i)) ==> project_id@ == p)
            })
            &&& (r is Unknown <==> !spec_ends_with(h, ".zexio.internal"@) && !spec_ends_with(
                h,
                ".zexio.app"@,
            ))
        }),
{
    let stripped = strip_port(host);
    let n = stripped.unicode_len();
    if ends_with(stripped, ".zexio.internal") {
        proof {
            reveal_strlit(".zexio.internal");
        }
        if count_char(stripped, '.') >= 3 {
            HostClass::Managed { host: stripped.to_owned() }
        } else {
            let prefix = stripped.substring_char(0, n - 15);
            proof {
                assert(prefix@ =~= spec_internal_prefix(stripped@));
            }
            HostClass::LegacyInternal { project_id: prefix.to_owned() }
        }
    } else if ends_with(stripped, ".zexio.app") {
        proof {
            reveal_strlit(".zexio.app");
        }
        let prefix = stripped.substring_char(0, n - 10);
        proof {
            assert(prefix@ =~= spec_app_prefix(stripped@));
        }
        proof {
            reveal_strlit("--");
        }
        let project = match rfind_str(prefix, "--") {
            Some(i) => {
                let m = prefix.unicode_len();
                let tail = prefix.substring_char(i + 2, m);
                proof {
                    assert(tail@ =~= prefix@.skip(i + 2));
                }
                tail
            },
            None => prefix,
        };
        HostClass::App { project_id: project.to_owned() }
    } else {
        HostClass::Unknown
    }
}

/// Whether serving this host requires a service-directory lookup.
pub fn needs_directory(host: &str) -> (r: bool)
    ensures
        r <==> spec_is_managed(spec_strip_port(host@)),
{
    let stripped = strip_port(host);
    proof {
        reveal_strlit(".zexio.internal");
    }
    ends_with(stripped, ".zexio.internal") && count_char(stripped, '.') >= 3
}

/// One service-directory answer, as plain values: where the workload runs
/// and which tenant owns it.
#[derive(Clone)]
pub struct DirectoryEntry {
    pub worker_ip: String,
    pub port: u16,
    pub owner_id: String,
}

/// The first value stored under a key, if any.
pub open spec fn spec_lookup(pairs: Seq<(Seq<char>, Seq<char>)>, key: Seq<char>) -> Option<
    Seq<char>,
>
    decreases pairs.len(),
{
    if pairs.len() == 0 {
        None
    } else if pairs.first().0 == key {
        Some(pairs.first().1)
    } else {
        spec_lookup(pairs.drop_first(), key)
    }
}

/// Find the first value stored under a key.
fn lookup<'a>(pairs: &'a Vec<(String, String)>, key: &str) -> (r: Option<&'a String>)
    ensures
        r matches Some(v) ==> spec_lookup(pairs.deep_view(), key@) == Some(v@),
        r is None ==> spec_lookup(pairs.deep_view(), key@) is None,
{
    let n = pairs.len();
    proof {
        assert(pairs.deep_view().skip(0) =~= pairs.deep_view());
    }
    for i in 0..n
        invariant
            n == pairs@.len(),
            pairs.deep_view().len() == n,
            forall|j: int|
                0 <= j < n ==> pairs.deep_view()[j] == (pairs@[j].0@, pairs@[j].1@),
            spec_lookup(pairs.deep_view(), key@) == spec_lookup(
                pairs.deep_view().skip(i as int),
                key@,
            ),
    {
        proof {
            assert(pairs.deep_view().skip(i as int).first() == pairs.deep_view()[i as int]);
            assert(pairs.deep_view().skip(i as int).drop_first() =~= pairs.deep_view().skip(
                i + 1,
            ));
        }
        if str_eq(pairs[i].0.as_str(), key) {
            return Some(&pairs[i].1);
        }
    }
    None
}

/// What the directory fields denote as a port: a parsable in-range decimal,
/// or the default 80.
pub open spec fn spec_entry_port(pairs: Seq<(Seq<char>, Seq<char>)>) -> int {
    match spec_lookup(pairs, "port"@) {
        Some(p) => match spec_parse_decimal(p) {
            Some(v) => if 0 <= v <= 65535 {
                v
            } else {
                80
            },
            None => 80,
        },
        None => 80,
    }
}

/// Interpret a directory record's fields. `None` without a `worker_ip`
/// field; a missing or malformed `port` defaults to 80, a missing
/// `owner_id` to the empty tenant.
pub fn entry_from_fields(pairs: &Vec<(String, String)>) -> (r: Option<DirectoryEntry>)
    ensures
        r is Some <==> spec_lookup(pairs.deep_view(), "worker_ip"@) is Some,
        r matches Some(e) ==> {
            &&& spec_lookup(pairs.deep_view(), "worker_ip"@) == Some(e.worker_ip@)
            &&& e.port == spec_entry_port(pairs.deep_view())
            &&& e.owner_id@ == match spec_lookup(pairs.deep_view(), "owner_id"@) {
                Some(o) => o,
                None => Seq::<char>::empty(),
            }
        },
{
    let worker_ip = match lookup(pairs, "worker_ip") {
        Some(ip) => ip.clone(),
        None => {
            return None;
        },
    };
    let port: u16 = match lookup(pairs, "port") {
        Some(p) => match parse_port(p.as_str()) {
            Some(v) => v,
            None => 80,
        },
        None => 80,
    };
    let owner_id = match lookup(pairs, "owner_id") {
        Some(o) => o.clone(),
        None => String::new(),
    };
    Some(DirectoryEntry { worker_ip, port, owner_id })
}

/// Where the proxy should connect for one request, and which tenant owns
/// the target.
#[derive(Clone)]
pub struct Resolution {
    pub upstream_host: String,
    pub upstream_port: u16,
    pub owner_id: String,
}

/// Whether a directory `worker_ip` denotes this node: equal to the
/// configured public IP, or a loopback form when none is configured.
pub open spec fn spec_is_local_ip(ip: Seq<char>, public_ip: Option<Seq<char>>) -> bool {
    match public_ip {
        Some(p) => ip == p,
        None => ip == "127.0.0.1"@ || ip == "localhost"@,
    }
}

/// The view of an optional configured public IP.
pub open spec fn spec_opt_view(public_ip: Option<&String>) -> Option<Seq<char>> {
    match public_ip {
        Some(p) => Some(p@),
        None => None,
    }
}

/// Route a managed host from its directory entry: the entry's port and
/// owner, with the upstream collapsed to loopback when the workload runs
/// on this node.
pub fn resolve_managed(entry: &DirectoryEntry, public_ip: Option<&String>) -> (r: Resolution)
    ensures
        r.upstream_port == entry.port,
        r.owner_id@ == entry.owner_id@,
        spec_is_local_ip(entry.worker_ip@, spec_opt_view(public_ip)) ==> r.upstream_host@
            == "127.0.0.1"@,
        !spec_is_local_ip(entry.worker_ip@, spec_opt_view(public_ip)) ==> r.upstream_host@
            == entry.worker_ip@,
{
    let is_local = match public_ip {
        Some(ip) => str_eq(entry.worker_ip.as_str(), ip.as_str()),
        None => str_eq(entry.worker_ip.as_str(), "127.0.0.1") || str_eq(
            entry.worker_ip.as_str(),
            "localhost",
        ),
    };
    let upstream_host = if is_local {
        String::from_str("127.0.0.1")
    } else {
        entry.worker_ip.clone()
    };
    Resolution { upstream_host, upstream_port: entry.port, owner_id: entry.owner_id.clone() }
}

/// Route a legacy host: loopback, the deterministic project port, and the
/// empty tenant (so that only an empty-tenant token passes authorization).
pub fn resolve_legacy(project_id: &str) -> (r: Resolution)
    ensures
        r.upstream_host@ == "127.0.0.1"@,
        r.upstream_port == spec_legacy_port(project_id.spec_bytes()),
        r.owner_id@ == Seq::<char>::empty(),
{
    Resolution {
        upstream_host: String::from_str("127.0.0.1"),
        upstream_port: legacy_port(project_id),
        owner_id: String::new(),
    }
}

/// What consulting the service directory yielded, when a managed host
/// required it.
pub enum DirectoryLookup {
    /// The directory holds a record for the key.
    Found(DirectoryEntry),
    /// The directory answered: no record under this key.
    Miss,
    /// The directory could not be reached; a managed host then cannot be
    /// routed at all.
    Unavailable,
}

/// Resolve a raw `Host` header. `directory` is the service directory's
/// outcome for the managed key (pass `Miss` where no lookup was needed):
/// a managed host routes by its record, falls back to the legacy rule on
/// a miss, and resolves to nothing when the directory is unreachable; a
/// host in neither zone resolves to nothing.
pub fn resolve_host(host: &str, directory: &DirectoryLookup, public_ip: Option<&String>) -> (r:
    Option<Resolution>)
    ensures
        ({
            let h = spec_strip_port(host@);
            &&& (r is Some <==> (spec_ends_with(h, ".zexio.internal"@) || spec_ends_with(
                h,
                ".zexio.app"@,
            )) && !(spec_is_managed(h) && directory is Unavailable))
            &&& (spec_is_managed(h) ==> (directory matches DirectoryLookup::Found(e) ==> (
            r matches Some(res) && {
                &&& res.upstream_port == e.port
                &&& res.owner_id@ == e.owner_id@
                &&& (spec_is_local_ip(e.worker_ip@, spec_opt_view(public_ip)) ==> res.upstream_host@
                    == "127.0.0.1"@)
                &&& (!spec_is_local_ip(e.worker_ip@, spec_opt_view(public_ip))
                    ==> res.upstream_host@ == e.worker_ip@)
            })))
            &&& (spec_ends_with(h, ".zexio.internal"@) && !(spec_is_managed(h) && !(
            directory is Miss)) ==> (r matches Some(res) && {
                &&& res.upstream_host@ == "127.0.0.1"@
                &&& res.upstream_port == spec_legacy_port(
                    vstd::utf8::encode_utf8(spec_internal_prefix(h)),
                )
                &&& res.owner_id@ == Seq::<char>::empty()
            }))
            &&& (spec_is_app(h) ==> (r matches Some(res) && res.upstream_host@ == "127.0.0.1"@
                && res.owner_id@ == Seq::<char>::empty() && {
                let p = spec_app_prefix(h);
                &&& ((exists|i: int| spec_contains_at(p, "--"@, i)) ==> exists|i: int|
                    {
                        &&& spec_contains_at(p, "--"@, i)
                        &&& (forall|j: int| j > i ==> !spec_contains_at(p, "--"@, j))
                        &&& res.upstream_port == spec_legacy_port(
                            vstd::utf8::encode_utf8(p.skip(i + 2)),
                        )
                    })
                &&& ((forall|i: int| !spec_contains_at(p, "--"@, i)) ==> res.upstream_port
                    == spec_legacy_port(vstd::utf8::encode_utf8(p)))
            }))
        }),
{
    let class = classify_host(host);
    match class {
        HostClass::Managed { .. } => {
            match directory {
                DirectoryLookup::Found(entry) => Some(resolve_managed(entry, public_ip)),
                DirectoryLookup::Miss => {
                    let stripped = strip_port(host);
                    let n = stripped.unicode_len();
                    proof {
                        reveal_strlit(".zexio.internal");
                    }
                    let prefix = stripped.substring_char(0, n - 15);
                    proof {
                        assert(prefix@ =~= spec_internal_prefix(stripped@));
                    }
                    Some(resolve_legacy(prefix))
                },
                DirectoryLookup::Unavailable => None,
            }
        },
        HostClass::LegacyInternal { project_id } => Some(resolve_legacy(project_id.as_str())),
        HostClass::App { project_id } => Some(resolve_legacy(project_id.as_str())),
        HostClass::Unknown => None,
    }
}

} // verus!
