//! The Minecraft folder structure. Every method returns a path under a
//! Minecraft root such as `.minecraft`. Paths are plain strings joined with
//! `/`; the surrounding program turns them into platform paths.

use vstd::prelude::*;
use vstd::string::*;

verus! {

/// `a` and `b` joined with a single `/`, leaving `b` alone when `a` is empty
/// and adding no separator when `a` already ends with one.
pub open spec fn spec_join(a: Seq<char>, b: Seq<char>) -> Seq<char> {
    if a.len() == 0 {
        b
    } else if a.last() == '/' {
        a + b
    } else {
        a + "/"@ + b
    }
}

/// Joins two path fragments with a `/` separator.
pub fn join_path(a: &str, b: &str) -> (r: String)
    ensures
        r@ == spec_join(a@, b@),
{
    let n = a.unicode_len();
    if n == 0 {
        String::from_str(b)
    } else if a.get_char(n - 1) == '/' {
        let mut r = String::from_str(a);
        r.append(b);
        proof {
            assert(a@.last() == a@[n - 1]);
        }
        r
    } else {
        let mut r = String::from_str(a);
        r.append("/");
        r.append(b);
        r
    }
}

/// The Minecraft folder structure. All methods return the path related to a
/// Minecraft root like `.minecraft`.
#[derive(Debug, Clone)]
pub struct MinecraftLocation {
    pub root: String,
    pub libraries: String,
    pub assets: String,
    pub resourcepacks: String,
    pub mods: String,
    pub logs: String,
    pub latest_log: String,
    pub saves: String,
    pub versions: String,
    pub options: String,
    pub screenshots: String,
}

impl MinecraftLocation {
    /// Lays out every well-known subpath under the given root.
    pub fn new(root: &str) -> (r: MinecraftLocation)
        ensures
            r.root@ == root@,
            r.assets@ == spec_join(root@, "assets"@),
            r.libraries@ == spec_join(root@, "libraries"@),
            r.resourcepacks@ == spec_join(root@, "resourcepacks"@),
            r.mods@ == spec_join(root@, "mods"@),
            r.logs@ == spec_join(root@, "logs"@),
            r.latest_log@ == spec_join(spec_join(root@, "logs"@), "latest.log"@),
            r.saves@ == spec_join(root@, "resourcepacks"@),
            r.versions@ == spec_join(root@, "versions"@),
            r.options@ == spec_join(root@, "options.txt"@),
            r.screenshots@ == spec_join(root@, "screenshots"@),
    {
        let logs = join_path(root, "logs");
        let latest_log = join_path(logs.as_str(), "latest.log");
        MinecraftLocation {
            root: String::from_str(root),
            assets: join_path(root, "assets"),
            libraries: join_path(root, "libraries"),
            resourcepacks: join_path(root, "resourcepacks"),
            mods: join_path(root, "mods"),
            logs,
            latest_log,
            saves: join_path(root, "resourcepacks"),
            versions: join_path(root, "versions"),
            options: join_path(root, "options.txt"),
            screenshots: join_path(root, "screenshots"),
        }
    }

    /// The natives jar path derived from a version name alone.
    pub fn get_natives_root(&self, version: &str) -> (r: String)
        ensures
            r@ == spec_join(version@, version@ + "-natives.jar"@),
    {
        let mut name = String::from_str(version);
        name.append("-natives.jar");
        join_path(version, name.as_str())
    }

    /// The directory of one installed version.
    pub fn get_version_root(&self, version: &str) -> (r: String)
        ensures
            r@ == spec_join(self.versions@, version@),
    {
        join_path(self.versions.as_str(), version)
    }

    /// The version document path of one installed version.
    pub fn get_version_json(&self, version: &str) -> (r: String)
        ensures
            r@ == spec_join(spec_join(self.versions@, version@), version@ + ".json"@),
    {
        let root = self.get_version_root(version);
        let mut name = String::from_str(version);
        name.append(".json");
        join_path(root.as_str(), name.as_str())
    }

    /// The jar path of one installed version; a side other than the client
    /// gets the side name as a suffix.
    pub fn get_version_jar(&self, version: &str, side: Option<&str>) -> (r: String)
        ensures
            r@ == (match side {
                Some(s) => if s@ == "client"@ {
                    spec_join(spec_join(self.versions@, version@), version@ + ".jar"@)
                } else {
                    spec_join(
                        spec_join(self.versions@, version@),
                        version@ + "-"@ + s@ + ".jar"@,
                    )
                },
                None => spec_join(spec_join(self.versions@, version@), version@ + ".jar"@),
            }),
    {
        match side {
            None => {
                let root = self.get_version_root(version);
                let mut name = String::from_str(version);
                name.append(".jar");
                join_path(root.as_str(), name.as_str())
            },
            Some(s) => {
                if crate::strutil::str_eq(s, "client") {
                    let root = self.get_version_root(version);
                    let mut name = String::from_str(version);
                    name.append(".jar");
                    join_path(root.as_str(), name.as_str())
                } else {
                    let root = self.get_version_root(version);
                    let mut name = String::from_str(version);
                    name.append("-");
                    name.append(s);
                    name.append(".jar");
                    join_path(root.as_str(), name.as_str())
                }
            },
        }
    }

    /// The version directory, document and jar paths of one version, in that
    /// order.
    pub fn get_version_all(&self, version: &str) -> (r: Vec<String>)
        ensures
            r@.len() == 3,
            r@[0]@ == spec_join(self.versions@, version@),
            r@[1]@ == spec_join(spec_join(self.versions@, version@), version@ + ".json"@),
            r@[2]@ == spec_join(spec_join(self.versions@, version@), version@ + ".jar"@),
    {
        let dir = join_path(self.versions.as_str(), version);
        let mut json_name = String::from_str(version);
        json_name.append(".json");
        let mut jar_name = String::from_str(version);
        jar_name.append(".jar");
        let json_path = join_path(dir.as_str(), json_name.as_str());
        let jar_path = join_path(dir.as_str(), jar_name.as_str());
        let mut r: Vec<String> = Vec::new();
        r.push(dir);
        r.push(json_path);
        r.push(jar_path);
        r
    }

    /// A resource pack file under the resource-pack directory.
    pub fn get_resource_pack(&self, file_name: &str) -> (r: String)
        ensures
            r@ == spec_join(self.resourcepacks@, file_name@),
    {
        join_path(self.resourcepacks.as_str(), file_name)
    }

    /// A mod file under the mods directory.
    pub fn get_mod(&self, file_name: &str) -> (r: String)
        ensures
            r@ == spec_join(self.mods@, file_name@),
    {
        join_path(self.mods.as_str(), file_name)
    }

    /// A log file under the logs directory.
    pub fn get_log(&self, file_name: &str) -> (r: String)
        ensures
            r@ == spec_join(self.logs@, file_name@),
    {
        join_path(self.logs.as_str(), file_name)
    }

    /// A library file at its relative path under the libraries directory.
    pub fn get_library_by_path(&self, library_path: &str) -> (r: String)
        ensures
            r@ == spec_join(self.libraries@, library_path@),
    {
        join_path(self.libraries.as_str(), library_path)
    }
}

/// The textual form of a path value.
pub fn get_path(path: &String) -> (r: String)
    ensures
        r@ == path@,
{
    path.clone()
}

} // verus!
