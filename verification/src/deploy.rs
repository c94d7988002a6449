//! Deployment decisions: which artifact a deploy request names, what the
//! artifact file is called, how it is installed, and the environment file
//! written next to it. Downloading, unpacking and the service restart
//! happen outside.

use vstd::prelude::*;

use crate::text::{ends_with, find_char, rfind_str, spec_contains_at, spec_dec, spec_ends_with};

verus! {

/// A deploy request: an artifact by URL or by name of an already
/// uploaded file, and optional environment variables.
pub struct DeployProjectRequest {
    pub url: Option<String>,
    pub file: Option<String>,
    pub environment: Option<Vec<(String, String)>>,
}

/// Where the artifact comes from.
pub enum ArtifactSource {
    /// Download from this URL.
    Download { url: String },
    /// Use this file, already present in the project's bundle.
    Existing { file: String },
}

/// Why a deploy request is refused.
#[derive(Clone, Copy, PartialEq, Eq, Structural, Debug)]
pub enum DeployError {
    /// Neither a URL nor a file was named.
    MissingSource,
}

/// Pick the artifact source: a URL wins over a file; naming neither is
/// an error.
pub fn deploy_source(req: DeployProjectRequest) -> (r: Result<ArtifactSource, DeployError>)
    ensures
        req.url matches Some(u) ==> (r matches Ok(s) && s matches ArtifactSource::Download { url }
            && url@ == u@),
        req.url is None ==> (req.file matches Some(f) ==> (r matches Ok(s) && (
        s matches ArtifactSource::Existing { file } && file@ == f@))),
        req.url is None && req.file is None <==> r == Err::<ArtifactSource, DeployError>(
            DeployError::MissingSource,
        ),
{
    match req.url {
        Some(url) => Ok(ArtifactSource::Download { url }),
        None => match req.file {
            Some(file) => Ok(ArtifactSource::Existing { file }),
            None => Err(DeployError::MissingSource),
        },
    }
}

/// Whether a name after the last slash of the URL can serve as a
/// filename: non-empty and carrying an extension dot.
pub open spec fn spec_usable_filename(name: Seq<char>) -> bool {
    name.len() > 0 && exists|i: int| 0 <= i < name.len() && name[i] == '.'
}

/// The fallback artifact name when the URL yields none: stamped with the
/// time so that repeated deploys do not collide.
pub open spec fn spec_fallback_artifact(now_secs: int) -> Seq<char> {
    "artifact_"@ + spec_dec(now_secs) + ".zip"@
}

/// Derive the artifact's filename from its URL: the part after the last
/// slash when it is usable, else a time-stamped fallback.
pub fn artifact_filename_from_url(url: &str, now_secs: u64) -> (r: String)
    ensures
        ({
            &&& ((exists|i: int| spec_contains_at(url@, "/"@, i)) ==> exists|i: int|
                {
                    &&& spec_contains_at(url@, "/"@, i)
                    &&& (forall|j: int| j > i ==> !spec_contains_at(url@, "/"@, j))
                    &&& (spec_usable_filename(url@.skip(i + 1)) ==> r@ == url@.skip(i + 1))
                    &&& (!spec_usable_filename(url@.skip(i + 1)) ==> r@ == spec_fallback_artifact(
                        now_secs as int,
                    ))
                })
            &&& ((forall|i: int| !spec_contains_at(url@, "/"@, i)) ==> {
                &&& (spec_usable_filename(url@) ==> r@ == url@)
                &&& (!spec_usable_filename(url@) ==> r@ == spec_fallback_artifact(now_secs as int))
            })
        }),
{
    proof {
        reveal_strlit("/");
    }
    let n = url.unicode_len();
    let tail: &str = match rfind_str(url, "/") {
        Some(i) => {
            let t = url.substring_char(i + 1, n);
            proof {
                assert(t@ =~= url@.skip(i + 1));
            }
            t
        },
        None => url,
    };
    let usable = if tail.unicode_len() == 0 {
        false
    } else {
        find_char(tail, '.').is_some()
    };
    if usable {
        String::from_str(tail)
    } else {
        String::from_str("artifact_").concat(crate::text::u64_to_dec(now_secs).as_str()).concat(
            ".zip",
        )
    }
}

/// Whether an artifact is an archive to unpack, rather than a binary to
/// install directly.
pub fn is_zip_artifact(name: &str) -> (r: bool)
    ensures
        r <==> spec_ends_with(name@, ".zip"@),
{
    proof {
        reveal_strlit(".zip");
    }
    ends_with(name, ".zip")
}

/// The environment lines for a list of variables: one `KEY=VALUE` line
/// per pair, in order.
pub open spec fn spec_env_lines(pairs: Seq<(Seq<char>, Seq<char>)>) -> Seq<char>
    decreases pairs.len(),
{
    if pairs.len() == 0 {
        Seq::empty()
    } else {
        spec_env_lines(pairs.drop_last()) + pairs.last().0 + "="@ + pairs.last().1 + "\n"@
    }
}

/// The header that separates stored secret variables from the request's.
pub open spec fn spec_stored_env_header() -> Seq<char> {
    "\n# Stored Secret Env\n"@
}

/// Build the `.env` content for a deploy: the request's variables first,
/// then any decrypted stored environment under its header.
pub fn env_file_content(pairs: &Vec<(String, String)>, stored: Option<&String>) -> (r: String)
    ensures
        ({
            let lines = spec_env_lines(
                pairs@.map(|i: int, p: (String, String)| (p.0@, p.1@)),
            );
            &&& (stored matches Some(s) ==> r@ == lines + spec_stored_env_header() + s@)
            &&& (stored is None ==> r@ == lines)
        }),
{
    let ghost mapped = pairs@.map(|i: int, p: (String, String)| (p.0@, p.1@));
    let mut out = String::new();
    let n = pairs.len();
    for i in 0..n
        invariant
            n == pairs@.len(),
            mapped == pairs@.map(|i: int, p: (String, String)| (p.0@, p.1@)),
            out@ == spec_env_lines(mapped.take(i as int)),
    {
        out = out.concat(pairs[i].0.as_str()).concat("=").concat(pairs[i].1.as_str()).concat(
            "\n",
        );
        proof {
            assert(mapped.take(i + 1).drop_last() =~= mapped.take(i as int));
            assert(mapped.take(i + 1).last() == (pairs@[i as int].0@, pairs@[i as int].1@));
        }
    }
    proof {
        assert(mapped.take(n as int) =~= mapped);
    }
    match stored {
        Some(s) => out.concat("\n# Stored Secret Env\n").concat(s.as_str()),
        None => out,
    }
}

} // verus!
