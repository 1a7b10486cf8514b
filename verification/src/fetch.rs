//! Turning a resolved download link into a concrete transfer: the maven
//! host prefix is stripped to a relative library path, the destination is
//! placed under the libraries directory, and the caller-supplied integrity
//! hash is attached when present. The transfer itself is performed by the
//! surrounding program.

use vstd::prelude::*;
use vstd::string::*;
use crate::folder::{join_path, spec_join, MinecraftLocation};
use crate::strutil::{chars_eq, chars_of, string_of, sub_chars};

verus! {

/// A version request: the modloader release, the game version, and an
/// optional integrity hash for the installer transfer.
pub struct RequiredVersion {
    pub installer: Option<InstallerIntegrity>,
    pub mcversion: String,
    pub version: String,
}

/// Integrity metadata for the installer transfer.
pub struct InstallerIntegrity {
    pub sha1: Option<String>,
}

/// A planned transfer: the source link, the maven-relative path, the local
/// destination under the libraries directory, and the expected hash (empty
/// when verification is skipped).
pub struct DownloadPlan {
    pub url: String,
    pub path: String,
    pub file_path: String,
    pub sha1: String,
}

/// The maven host prefix the vendor serves installers from.
pub open spec fn maven_host() -> Seq<char> {
    "https://maven.minecraftforge.net/"@
}

/// The link with the maven host prefix stripped, when it starts with it.
pub open spec fn strip_maven_host(link: Seq<char>) -> Seq<char> {
    if link.len() >= maven_host().len() && link.take(maven_host().len() as int) == maven_host() {
        link.subrange(maven_host().len() as int, link.len() as int)
    } else {
        link
    }
}

/// The integrity hash of a request, or the empty string when none was
/// supplied and verification is skipped.
pub open spec fn integrity_sha1(rv: RequiredVersion) -> Seq<char> {
    match rv.installer {
        Some(i) => match i.sha1 {
            Some(s) => s@,
            None => Seq::<char>::empty(),
        },
        None => Seq::<char>::empty(),
    }
}

/// Plans the installer transfer for a resolved link.
pub fn plan_installer_download(
    link: &str,
    required_version: &RequiredVersion,
    minecraft: &MinecraftLocation,
) -> (r: DownloadPlan)
    ensures
        r.url@ == link@,
        r.path@ == strip_maven_host(link@),
        r.file_path@ == spec_join(minecraft.libraries@, strip_maven_host(link@)),
        r.sha1@ == integrity_sha1(*required_version),
{
    let cs = chars_of(link);
    let host = chars_of("https://maven.minecraftforge.net/");
    let path: String = if cs.len() >= host.len() {
        let head = sub_chars(&cs, 0, host.len());
        if chars_eq(&head, &host) {
            let tail = sub_chars(&cs, host.len(), cs.len());
            string_of(&tail)
        } else {
            String::from_str(link)
        }
    } else {
        String::from_str(link)
    };
    let file_path = join_path(minecraft.libraries.as_str(), path.as_str());
    let sha1: String = match &required_version.installer {
        Some(i) => match &i.sha1 {
            Some(s) => s.clone(),
            None => String::new(),
        },
        None => String::new(),
    };
    DownloadPlan { url: String::from_str(link), path, file_path, sha1 }
}

/// The vendor's index page for one game version.
pub open spec fn index_url(mcversion: Seq<char>) -> Seq<char> {
    "https://files.minecraftforge.net/net/minecraftforge/forge/index_"@ + mcversion + ".html"@
}

/// Builds the index page address for a game version.
pub fn forge_index_url(mcversion: &str) -> (r: String)
    ensures
        r@ == index_url(mcversion@),
{
    let mut r = String::from_str("https://files.minecraftforge.net/net/minecraftforge/forge/index_");
    r.append(mcversion);
    r.append(".html");
    r
}

} // verus!
