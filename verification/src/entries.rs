//! Projection of the installer archive onto its well-known entries, and the
//! three-way shape decision over the projected record.

use vstd::prelude::*;
use vstd::string::*;

verus! {

/// The raw content of the named archive entry, or nothing when the archive
/// holds no entry of that name or cannot be read at all.
pub uninterp spec fn zip_entry_content(archive: Seq<u8>, name: Seq<char>) -> Option<Seq<u8>>;

/// Relies on zip::ZipArchive: `new` parses the archive bytes, `by_name`
/// finds the named entry, and reading it inflates its content; the outcome
/// is a function of the bytes and the name alone.
#[verifier::external_body]
fn read_zip_entry(archive: &Vec<u8>, name: &str) -> (r: Option<Vec<u8>>)
    ensures
        match r {
            Some(c) => zip_entry_content(archive@, name@) == Some(c@),
            None => zip_entry_content(archive@, name@) is None,
        },
{
    let cursor = std::io::Cursor::new(archive.as_slice());
    let mut zip = match zip::ZipArchive::new(cursor) {
        Ok(z) => z,
        Err(_) => return None,
    };
    let mut file = match zip.by_name(name) {
        Ok(f) => f,
        Err(_) => return None,
    };
    let mut buf: Vec<u8> = Vec::new();
    match std::io::Read::read_to_end(&mut file, &mut buf) {
        Ok(_) => Some(buf),
        Err(_) => None,
    }
}

/// One projected archive entry: its name inside the archive and its bytes.
pub struct Entry {
    pub name: String,
    pub content: Vec<u8>,
}

/// The projected record of an installer archive: each well-known role is
/// populated when the archive holds the entry of its canonical name.
pub struct ForgeInstallerEntries {
    pub forge_jar: Option<Entry>,
    pub forge_universal_jar: Option<Entry>,
    pub client_lzma: Option<Entry>,
    pub server_lzma: Option<Entry>,
    pub install_profile_json: Option<Entry>,
    pub version_json: Option<Entry>,
    pub legacy_universal_jar: Option<Entry>,
    pub run_sh: Option<Entry>,
    pub run_bat: Option<Entry>,
    pub unix_args: Option<Entry>,
    pub user_jvm_args: Option<Entry>,
    pub win_args: Option<Entry>,
}

/// The canonical maven entry name of the primary Forge jar.
pub open spec fn forge_jar_entry_name(label: Seq<char>) -> Seq<char> {
    "maven/net/minecraftforge/forge/"@ + label + "/forge-"@ + label + ".jar"@
}

/// The canonical maven entry name of the universal Forge jar.
pub open spec fn universal_jar_entry_name(label: Seq<char>) -> Seq<char> {
    "maven/net/minecraftforge/forge/"@ + label + "/forge-"@ + label + "-universal.jar"@
}

/// The entry name of the legacy universal jar at the archive root.
pub open spec fn legacy_universal_entry_name(label: Seq<char>) -> Seq<char> {
    "forge-"@ + label + "-universal.jar"@
}

/// Builds the primary-jar entry name for a version label.
pub fn make_forge_jar_entry_name(label: &str) -> (r: String)
    ensures
        r@ == forge_jar_entry_name(label@),
{
    let mut r = String::from_str("maven/net/minecraftforge/forge/");
    r.append(label);
    r.append("/forge-");
    r.append(label);
    r.append(".jar");
    r
}

/// Builds the universal-jar entry name for a version label.
pub fn make_universal_jar_entry_name(label: &str) -> (r: String)
    ensures
        r@ == universal_jar_entry_name(label@),
{
    let mut r = String::from_str("maven/net/minecraftforge/forge/");
    r.append(label);
    r.append("/forge-");
    r.append(label);
    r.append("-universal.jar");
    r
}

/// Builds the legacy universal jar entry name for a version label.
pub fn make_legacy_universal_entry_name(label: &str) -> (r: String)
    ensures
        r@ == legacy_universal_entry_name(label@),
{
    let mut r = String::from_str("forge-");
    r.append(label);
    r.append("-universal.jar");
    r
}

/// A projected role agrees with the archive: populated with the entry's
/// bytes under its canonical name exactly when the archive holds the entry.
pub open spec fn entry_projects(e: Option<Entry>, archive: Seq<u8>, name: Seq<char>) -> bool {
    match e {
        Some(en) => en.name@ == name && zip_entry_content(archive, name) == Some(en.content@),
        None => zip_entry_content(archive, name) is None,
    }
}

fn lookup_entry(archive: &Vec<u8>, name: String) -> (r: Option<Entry>)
    ensures
        entry_projects(r, archive@, name@),
{
    match read_zip_entry(archive, name.as_str()) {
        Some(content) => Some(Entry { name, content }),
        None => None,
    }
}

/// Projects the twelve well-known roles out of the archive bytes in one
/// pass; a missing entry leaves its role empty and is no error here.
pub fn walk_forge_installer_entries(archive: &Vec<u8>, forge_version: &str) -> (r:
    ForgeInstallerEntries)
    ensures
        entry_projects(r.forge_jar, archive@, forge_jar_entry_name(forge_version@)),
        entry_projects(r.forge_universal_jar, archive@, universal_jar_entry_name(forge_version@)),
        entry_projects(r.client_lzma, archive@, "data/client.lzma"@),
        entry_projects(r.server_lzma, archive@, "data/server.lzma"@),
        entry_projects(r.install_profile_json, archive@, "install_profile.json"@),
        entry_projects(r.version_json, archive@, "version.json"@),
        entry_projects(
            r.legacy_universal_jar,
            archive@,
            legacy_universal_entry_name(forge_version@),
        ),
        entry_projects(r.run_sh, archive@, "data/run.sh"@),
        entry_projects(r.run_bat, archive@, "data/run.bat"@),
        entry_projects(r.unix_args, archive@, "data/unix_args.txt"@),
        entry_projects(r.user_jvm_args, archive@, "data/unix_jvm_args"@),
        entry_projects(r.win_args, archive@, "data/win_args"@),
{
    ForgeInstallerEntries {
        forge_jar: lookup_entry(archive, make_forge_jar_entry_name(forge_version)),
        forge_universal_jar: lookup_entry(archive, make_universal_jar_entry_name(forge_version)),
        client_lzma: lookup_entry(archive, String::from_str("data/client.lzma")),
        server_lzma: lookup_entry(archive, String::from_str("data/server.lzma")),
        install_profile_json: lookup_entry(archive, String::from_str("install_profile.json")),
        version_json: lookup_entry(archive, String::from_str("version.json")),
        legacy_universal_jar: lookup_entry(
            archive,
            make_legacy_universal_entry_name(forge_version),
        ),
        run_sh: lookup_entry(archive, String::from_str("data/run.sh")),
        run_bat: lookup_entry(archive, String::from_str("data/run.bat")),
        unix_args: lookup_entry(archive, String::from_str("data/unix_args.txt")),
        user_jvm_args: lookup_entry(archive, String::from_str("data/unix_jvm_args")),
        win_args: lookup_entry(archive, String::from_str("data/win_args")),
    }
}

/// The structural generation of an installer archive.
#[derive(Clone, Copy, Debug, PartialEq, Eq, Structural)]
pub enum ForgeType {
    /// The current generation: a version document is embedded.
    New,
    /// The old generation: no version document, a legacy universal jar.
    Legacy,
    /// Neither generation; the archive cannot be installed.
    Bad,
}

/// The shape decision over which roles are populated: without an install
/// profile nothing can be installed; with one, a version document marks the
/// new generation, else a legacy universal jar marks the legacy one.
pub open spec fn shape_of(has_profile: bool, has_version_doc: bool, has_legacy_jar: bool)
    -> ForgeType {
    if !has_profile {
        ForgeType::Bad
    } else if has_version_doc {
        ForgeType::New
    } else if has_legacy_jar {
        ForgeType::Legacy
    } else {
        ForgeType::Bad
    }
}

/// Classifies the projected record; computed once and matched exhaustively.
pub fn classify_installer(e: &ForgeInstallerEntries) -> (r: ForgeType)
    ensures
        r == shape_of(
            e.install_profile_json is Some,
            e.version_json is Some,
            e.legacy_universal_jar is Some,
        ),
{
    if e.install_profile_json.is_none() {
        ForgeType::Bad
    } else if e.version_json.is_some() {
        ForgeType::New
    } else if e.legacy_universal_jar.is_some() {
        ForgeType::Legacy
    } else {
        ForgeType::Bad
    }
}

/// The classification laws: a present version document yields the new shape
/// whenever an install profile is present at all; without a version
/// document a legacy universal jar yields the legacy shape; with neither
/// the archive is bad, and a missing install profile is bad whatever else
/// is present.
pub proof fn lemma_shape_classification(
    has_profile: bool,
    has_version_doc: bool,
    has_legacy_jar: bool,
)
    ensures
        has_profile && has_version_doc ==> shape_of(has_profile, has_version_doc, has_legacy_jar)
            == ForgeType::New,
        has_profile && !has_version_doc && has_legacy_jar ==> shape_of(
            has_profile,
            has_version_doc,
            has_legacy_jar,
        ) == ForgeType::Legacy,
        !has_version_doc && !has_legacy_jar ==> shape_of(
            has_profile,
            has_version_doc,
            has_legacy_jar,
        ) == ForgeType::Bad,
        !has_profile ==> shape_of(has_profile, has_version_doc, has_legacy_jar) == ForgeType::Bad,
{
}

} // verus!
