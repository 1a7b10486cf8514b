//! The new-format unpacker: merges the installer's documents with
//! synthesized metadata and lays out, as one plan, every file write and
//! archive extraction the install needs. The surrounding program executes
//! the plan in order; paths are `/`-joined strings under the installation
//! root.

use vstd::prelude::*;
use vstd::string::*;
use crate::entries::{universal_jar_entry_name, Entry, ForgeInstallerEntries};
use crate::folder::{join_path, spec_join, MinecraftLocation};
use crate::jsondoc::{
    get_string_field, json_data_of, json_is_object, json_pretty, json_pretty_with_data,
    json_str_field, pretty_with_data, read_profile_data, to_pretty_string, value_is_object,
};
use crate::profile::{entries_view, patch_data_spec, patch_profile_data, ProfileDataEntry};
use crate::strutil::{chars_of, find_char, find_from, lemma_find_char, lemma_find_char_is,
    string_of, sub_chars};
use crate::InstallError;

verus! {

/// The position of the last `/` in `s`, or -1 when there is none.
pub open spec fn last_slash(s: Seq<char>) -> int
    decreases s.len(),
{
    if s.len() == 0 {
        -1
    } else if s.last() == '/' {
        s.len() - 1
    } else {
        last_slash(s.drop_last())
    }
}

/// Everything before the last `/` of a path, or the empty string.
pub open spec fn parent_dir(s: Seq<char>) -> Seq<char> {
    let i = last_slash(s);
    if i < 0 {
        Seq::<char>::empty()
    } else {
        s.take(i)
    }
}

proof fn lemma_last_slash_is(s: Seq<char>, i: int)
    requires
        0 <= i < s.len(),
        s[i] == '/',
        forall|j: int| i < j < s.len() ==> s[j] != '/',
    ensures
        last_slash(s) == i,
    decreases s.len(),
{
    if i < s.len() - 1 {
        assert(s.last() != '/');
        assert(s.drop_last() =~= s.take(s.len() - 1));
        lemma_last_slash_is(s.drop_last(), i);
    }
}

proof fn lemma_last_slash_none(s: Seq<char>)
    requires
        forall|j: int| 0 <= j < s.len() ==> s[j] != '/',
    ensures
        last_slash(s) == -1,
    decreases s.len(),
{
    if s.len() > 0 {
        lemma_last_slash_none(s.drop_last());
    }
}

/// The parent directory of a `/`-joined path.
pub fn parent_path(path: &str) -> (r: String)
    ensures
        r@ == parent_dir(path@),
{
    let cs = chars_of(path);
    let mut j: usize = cs.len();
    while j > 0
        invariant
            j <= cs@.len(),
            cs@ == path@,
            forall|k: int| j <= k < cs@.len() ==> cs@[k] != '/',
        decreases j,
    {
        if cs[j - 1] == '/' {
            proof {
                lemma_last_slash_is(cs@, j - 1);
            }
            let head = sub_chars(&cs, 0, j - 1);
            proof {
                assert(head@ =~= path@.take(j - 1));
            }
            return string_of(&head);
        }
        j -= 1;
    }
    proof {
        lemma_last_slash_none(cs@);
    }
    String::new()
}

/// The entry name with its first path segment dropped, or unchanged when it
/// has a single segment.
pub open spec fn strip_first_segment(s: Seq<char>) -> Seq<char> {
    let i = find_char(s, '/');
    if 0 <= i < s.len() {
        s.subrange(i + 1, s.len() as int)
    } else {
        s
    }
}

/// Drops the first `/`-separated segment of an entry name.
pub fn strip_first_path_segment(s: &str) -> (r: String)
    ensures
        r@ == strip_first_segment(s@),
{
    let cs = chars_of(s);
    proof {
        lemma_find_char(cs@, '/');
    }
    match find_from(&cs, 0, '/') {
        Some(i) => {
            proof {
                lemma_find_char_is(cs@, '/', i as int);
            }
            let tail = sub_chars(&cs, i + 1, cs.len());
            string_of(&tail)
        },
        None => {
            proof {
                if find_char(cs@, '/') >= 0 {
                    assert(cs@[find_char(cs@, '/')] == '/');
                }
            }
            String::from_str(s)
        },
    }
}

/// The relative library path both binary patches are extracted to.
pub open spec fn binpatch_rel_path(label: Seq<char>) -> Seq<char> {
    "net/minecraftforge/forge/"@ + label + "/forge-"@ + label + ".jar"@
}

/// Builds the relative library path of the binary patches.
pub fn make_binpatch_rel_path(label: &str) -> (r: String)
    ensures
        r@ == binpatch_rel_path(label@),
{
    let mut r = String::from_str("net/minecraftforge/forge/");
    r.append(label);
    r.append("/forge-");
    r.append(label);
    r.append(".jar");
    r
}

/// One extraction task of an optional role: the entry's own name mapped to
/// the destination.
pub open spec fn opt_task(e: Option<Entry>, dest: Seq<char>) -> Seq<(Seq<char>, Seq<char>)> {
    match e {
        Some(en) => seq![(en.name@, dest)],
        None => Seq::<(Seq<char>, Seq<char>)>::empty(),
    }
}

/// One direct write of an optional role under a root directory.
pub open spec fn opt_write(e: Option<Entry>, root: Seq<char>) -> Seq<(Seq<char>, Seq<u8>)> {
    match e {
        Some(en) => seq![(spec_join(root, en.name@), en.content@)],
        None => Seq::<(Seq<char>, Seq<u8>)>::empty(),
    }
}

/// The extraction tasks of the unpacker, in queue order: the universal jar
/// to its canonical library path, then the server patch and the client
/// patch, both to the same canonical Forge jar path.
pub open spec fn extraction_tasks_spec(
    e: ForgeInstallerEntries,
    label: Seq<char>,
    libraries: Seq<char>,
) -> Seq<(Seq<char>, Seq<char>)> {
    let universal = if e.forge_universal_jar is Some {
        seq![
            (
                universal_jar_entry_name(label),
                spec_join(libraries, universal_jar_entry_name(label)),
            ),
        ]
    } else {
        Seq::<(Seq<char>, Seq<char>)>::empty()
    };
    universal + opt_task(e.server_lzma, spec_join(libraries, binpatch_rel_path(label)))
        + opt_task(e.client_lzma, spec_join(libraries, binpatch_rel_path(label)))
}

/// The direct file writes of the unpacker, in order: the primary jar to the
/// library path named by the universal jar's entry, then each legacy
/// support file under the data root at its own entry name.
pub open spec fn direct_writes_spec(
    e: ForgeInstallerEntries,
    libraries: Seq<char>,
    data_root: Seq<char>,
) -> Seq<(Seq<char>, Seq<u8>)> {
    let jar = if e.forge_jar is Some {
        seq![
            (
                spec_join(libraries, strip_first_segment(e.forge_universal_jar.unwrap().name@)),
                e.forge_jar.unwrap().content@,
            ),
        ]
    } else {
        Seq::<(Seq<char>, Seq<u8>)>::empty()
    };
    jar + opt_write(e.run_bat, data_root) + opt_write(e.run_sh, data_root) + opt_write(
        e.win_args,
        data_root,
    ) + opt_write(e.unix_args, data_root) + opt_write(e.user_jvm_args, data_root)
}

/// When both binary patches are present, the two extraction tasks queued
/// last target one and the same destination file: whichever runs last wins.
/// This mirrors the vendor installers' observed layout and is preserved.
pub proof fn lemma_binpatch_tasks_same_dest(
    e: ForgeInstallerEntries,
    label: Seq<char>,
    libraries: Seq<char>,
)
    requires
        e.server_lzma is Some,
        e.client_lzma is Some,
    ensures
        extraction_tasks_spec(e, label, libraries).len() >= 2,
        extraction_tasks_spec(e, label, libraries).last().1 == spec_join(
            libraries,
            binpatch_rel_path(label),
        ),
        extraction_tasks_spec(e, label, libraries)[extraction_tasks_spec(
            e,
            label,
            libraries,
        ).len() - 2].1 == spec_join(libraries, binpatch_rel_path(label)),
{
}

/// The views of the extraction-task pairs.
pub open spec fn task_views(s: Seq<(String, String)>) -> Seq<(Seq<char>, Seq<char>)> {
    s.map_values(|p: (String, String)| (p.0@, p.1@))
}

/// The views of the direct-write pairs.
pub open spec fn write_views(s: Seq<(String, Vec<u8>)>) -> Seq<(Seq<char>, Seq<u8>)> {
    s.map_values(|p: (String, Vec<u8>)| (p.0@, p.1@))
}

/// Everything the install of a new-shape archive does to the filesystem,
/// laid out in execution order.
#[derive(Debug)]
pub struct UnpackPlan {
    /// The id of the version layer, read from the version document.
    pub version_id: String,
    /// Where the version document goes.
    pub version_json_path: String,
    /// The pretty-printed version document.
    pub version_json_content: String,
    /// Where the patched install profile goes.
    pub install_profile_path: String,
    /// The pretty-printed install profile with its patched data map.
    pub install_profile_content: String,
    /// The patched data map itself.
    pub profile_data: Vec<ProfileDataEntry>,
    /// Plain file writes, in order: each path gets the given bytes.
    pub direct_writes: Vec<(String, Vec<u8>)>,
    /// Archive extractions, in order: each entry name to its destination.
    pub extraction_tasks: Vec<(String, String)>,
}

/// Plans the unpack of a new-shape installer archive.
///
/// Takes the projected entries, the parsed version document after any
/// overrides, and the parsed install profile. Fails with a bad-archive
/// error when the version document carries no id or the profile is not an
/// object with a usable data map, and with an inconsistency error when the
/// primary jar is present without the universal jar that names its target.
pub fn unpack_forge_installer(
    entries: ForgeInstallerEntries,
    version_doc: &serde_json::Value,
    profile_doc: &serde_json::Value,
    forge_version: &str,
    minecraft: &MinecraftLocation,
    installer_jar_path: &str,
) -> (r: Result<UnpackPlan, InstallError>)
    ensures
        r is Ok <==> json_str_field(*version_doc, "id"@) is Some && json_is_object(*profile_doc)
            && json_data_of(*profile_doc) is Some && (entries.forge_jar is Some
            ==> entries.forge_universal_jar is Some),
        r is Err ==> r.unwrap_err() == (if json_str_field(*version_doc, "id"@) is Some
            && json_is_object(*profile_doc) && json_data_of(*profile_doc) is Some {
            InstallError::InconsistentArchive
        } else {
            InstallError::BadInstallerArchive
        }),
        r is Ok ==> ({
            let plan = r.unwrap();
            let id = json_str_field(*version_doc, "id"@).unwrap();
            let patched = patch_data_spec(
                json_data_of(*profile_doc).unwrap(),
                forge_version@,
                entries.server_lzma is Some,
                entries.client_lzma is Some,
            );
            &&& plan.version_id@ == id
            &&& plan.version_json_path@ == spec_join(minecraft.root@, id + ".json"@)
            &&& plan.version_json_content@ == json_pretty(*version_doc)
            &&& plan.install_profile_path@ == spec_join(
                minecraft.root@,
                "install_profile.json"@,
            )
            &&& entries_view(plan.profile_data@) == patched
            &&& plan.install_profile_content@ == json_pretty_with_data(*profile_doc, patched)
            &&& task_views(plan.extraction_tasks@) == extraction_tasks_spec(
                entries,
                forge_version@,
                minecraft.libraries@,
            )
            &&& write_views(plan.direct_writes@) == direct_writes_spec(
                entries,
                minecraft.libraries@,
                parent_dir(installer_jar_path@),
            )
        }),
{
    let ghost ge = entries;
    let version_id = match get_string_field(version_doc, "id") {
        Some(id) => id,
        None => {
            return Err(InstallError::BadInstallerArchive);
        },
    };
    if !value_is_object(profile_doc) {
        return Err(InstallError::BadInstallerArchive);
    }
    let mut profile_data = match read_profile_data(profile_doc) {
        Some(d) => d,
        None => {
            return Err(InstallError::BadInstallerArchive);
        },
    };
    if entries.forge_jar.is_some() && entries.forge_universal_jar.is_none() {
        return Err(InstallError::InconsistentArchive);
    }

    let has_server_patch = entries.server_lzma.is_some();
    let has_client_patch = entries.client_lzma.is_some();
    patch_profile_data(&mut profile_data, forge_version, has_server_patch, has_client_patch);

    let mut version_json_name = version_id.clone();
    version_json_name.append(".json");
    let version_json_path = join_path(minecraft.root.as_str(), version_json_name.as_str());
    let install_profile_path = join_path(minecraft.root.as_str(), "install_profile.json");
    let version_json_content = to_pretty_string(version_doc);
    let install_profile_content = pretty_with_data(profile_doc, &profile_data);
    let data_root = parent_path(installer_jar_path);

    let mut extraction_tasks: Vec<(String, String)> = Vec::new();
    if entries.forge_universal_jar.is_some() {
        let name = crate::entries::make_universal_jar_entry_name(forge_version);
        let dest = join_path(minecraft.libraries.as_str(), name.as_str());
        extraction_tasks.push((name, dest));
    }
    let binpatch_rel = make_binpatch_rel_path(forge_version);
    let binpatch_dest = join_path(minecraft.libraries.as_str(), binpatch_rel.as_str());
    let ghost tasks_after_universal = task_views(extraction_tasks@);
    match entries.server_lzma {
        Some(en) => {
            extraction_tasks.push((en.name, binpatch_dest.clone()));
        },
        None => {},
    }
    let ghost tasks_after_server = task_views(extraction_tasks@);
    match entries.client_lzma {
        Some(en) => {
            extraction_tasks.push((en.name, binpatch_dest));
        },
        None => {},
    }
    proof {
        assert(tasks_after_universal =~= (if ge.forge_universal_jar is Some {
            seq![
                (
                    universal_jar_entry_name(forge_version@),
                    spec_join(minecraft.libraries@, universal_jar_entry_name(forge_version@)),
                ),
            ]
        } else {
            Seq::<(Seq<char>, Seq<char>)>::empty()
        }));
        assert(tasks_after_server =~= tasks_after_universal + opt_task(
            ge.server_lzma,
            spec_join(minecraft.libraries@, binpatch_rel_path(forge_version@)),
        ));
        assert(task_views(extraction_tasks@) =~= tasks_after_server + opt_task(
            ge.client_lzma,
            spec_join(minecraft.libraries@, binpatch_rel_path(forge_version@)),
        ));
        assert(task_views(extraction_tasks@) =~= extraction_tasks_spec(
            ge,
            forge_version@,
            minecraft.libraries@,
        ));
    }

    let mut direct_writes: Vec<(String, Vec<u8>)> = Vec::new();
    match entries.forge_jar {
        Some(fj) => {
            match &entries.forge_universal_jar {
                Some(u) => {
                    let rel = strip_first_path_segment(u.name.as_str());
                    let dest = join_path(minecraft.libraries.as_str(), rel.as_str());
                    direct_writes.push((dest, fj.content));
                },
                None => {
                    return Err(InstallError::InconsistentArchive);
                },
            }
        },
        None => {},
    }
    let ghost writes_after_jar = write_views(direct_writes@);
    match entries.run_bat {
        Some(en) => {
            let dest = join_path(data_root.as_str(), en.name.as_str());
            direct_writes.push((dest, en.content));
        },
        None => {},
    }
    let ghost writes_after_bat = write_views(direct_writes@);
    match entries.run_sh {
        Some(en) => {
            let dest = join_path(data_root.as_str(), en.name.as_str());
            direct_writes.push((dest, en.content));
        },
        None => {},
    }
    let ghost writes_after_sh = write_views(direct_writes@);
    match entries.win_args {
        Some(en) => {
            let dest = join_path(data_root.as_str(), en.name.as_str());
            direct_writes.push((dest, en.content));
        },
        None => {},
    }
    let ghost writes_after_win = write_views(direct_writes@);
    match entries.unix_args {
        Some(en) => {
            let dest = join_path(data_root.as_str(), en.name.as_str());
            direct_writes.push((dest, en.content));
        },
        None => {},
    }
    let ghost writes_after_unix = write_views(direct_writes@);
    match entries.user_jvm_args {
        Some(en) => {
            let dest = join_path(data_root.as_str(), en.name.as_str());
            direct_writes.push((dest, en.content));
        },
        None => {},
    }
    proof {
        let libraries = minecraft.libraries@;
        let droot = parent_dir(installer_jar_path@);
        assert(writes_after_jar =~= (if ge.forge_jar is Some {
            seq![
                (
                    spec_join(
                        libraries,
                        strip_first_segment(ge.forge_universal_jar.unwrap().name@),
                    ),
                    ge.forge_jar.unwrap().content@,
                ),
            ]
        } else {
            Seq::<(Seq<char>, Seq<u8>)>::empty()
        }));
        assert(writes_after_bat =~= writes_after_jar + opt_write(ge.run_bat, droot));
        assert(writes_after_sh =~= writes_after_bat + opt_write(ge.run_sh, droot));
        assert(writes_after_win =~= writes_after_sh + opt_write(ge.win_args, droot));
        assert(writes_after_unix =~= writes_after_win + opt_write(ge.unix_args, droot));
        assert(write_views(direct_writes@) =~= writes_after_unix + opt_write(
            ge.user_jvm_args,
            droot,
        ));
        assert(write_views(direct_writes@) =~= direct_writes_spec(ge, libraries, droot));
    }

    Ok(
        UnpackPlan {
            version_id,
            version_json_path,
            version_json_content,
            install_profile_path,
            install_profile_content,
            profile_data,
            direct_writes,
            extraction_tasks,
        },
    )
}

} // verus!
