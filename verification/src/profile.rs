//! The install profile's data map and the patches the unpacker applies to
//! it: the INSTALLER entry and the BINPATCH client/server merge.

use vstd::prelude::*;
use vstd::string::*;
use crate::strutil::str_eq;

verus! {

/// One entry of the profile's data map: a logical key with an optional
/// client-side and an optional server-side maven coordinate.
#[derive(Debug)]
pub struct ProfileDataEntry {
    pub key: String,
    pub client: Option<String>,
    pub server: Option<String>,
}

impl View for ProfileDataEntry {
    type V = (Seq<char>, Option<Seq<char>>, Option<Seq<char>>);

    open spec fn view(&self) -> Self::V {
        (
            self.key@,
            match self.client {
                Some(c) => Some(c@),
                None => None,
            },
            match self.server {
                Some(s) => Some(s@),
                None => None,
            },
        )
    }
}

/// The view of an optional string.
pub open spec fn opt_view(o: Option<String>) -> Option<Seq<char>> {
    match o {
        Some(s) => Some(s@),
        None => None,
    }
}

/// The views of a vector of data entries.
pub open spec fn entries_view(s: Seq<ProfileDataEntry>) -> Seq<
    (Seq<char>, Option<Seq<char>>, Option<Seq<char>>),
> {
    s.map_values(|e: ProfileDataEntry| e@)
}

/// The least index whose entry carries `key`, or -1 when the key is absent.
pub open spec fn find_key(
    d: Seq<(Seq<char>, Option<Seq<char>>, Option<Seq<char>>)>,
    key: Seq<char>,
) -> int
    decreases d.len(),
{
    if d.len() == 0 {
        -1
    } else if d[0].0 == key {
        0
    } else {
        let r = find_key(d.subrange(1, d.len() as int), key);
        if r < 0 {
            -1
        } else {
            r + 1
        }
    }
}

pub proof fn lemma_find_key(
    d: Seq<(Seq<char>, Option<Seq<char>>, Option<Seq<char>>)>,
    key: Seq<char>,
)
    ensures
        -1 <= find_key(d, key) < d.len(),
        find_key(d, key) >= 0 ==> d[find_key(d, key)].0 == key,
        forall|j: int|
            0 <= j < d.len() && (find_key(d, key) < 0 || j < find_key(d, key))
                ==> (#[trigger] d[j]).0 != key,
    decreases d.len(),
{
    if d.len() > 0 && d[0].0 != key {
        let t = d.subrange(1, d.len() as int);
        lemma_find_key(t, key);
        assert forall|j: int|
            0 <= j < d.len() && (find_key(d, key) < 0 || j < find_key(d, key)) implies (
        #[trigger] d[j]).0 != key by {
            if j > 0 {
                assert(t[j - 1] == d[j]);
            }
        }
    }
}

/// `find_key` returns exactly the least index carrying `key`.
pub proof fn lemma_find_key_is(
    d: Seq<(Seq<char>, Option<Seq<char>>, Option<Seq<char>>)>,
    key: Seq<char>,
    i: int,
)
    requires
        0 <= i < d.len(),
        d[i].0 == key,
        forall|j: int| 0 <= j < i ==> (#[trigger] d[j]).0 != key,
    ensures
        find_key(d, key) == i,
    decreases d.len(),
{
    if i > 0 {
        let t = d.subrange(1, d.len() as int);
        assert forall|j: int| 0 <= j < i - 1 implies (#[trigger] t[j]).0 != key by {
            assert(t[j] == d[j + 1]);
        }
        lemma_find_key_is(t, key, i - 1);
    }
}

/// The data map with `key` set to the given sides: the first entry carrying
/// the key is replaced in place, or a new entry is appended.
pub open spec fn upsert_data(
    d: Seq<(Seq<char>, Option<Seq<char>>, Option<Seq<char>>)>,
    key: Seq<char>,
    client: Option<Seq<char>>,
    server: Option<Seq<char>>,
) -> Seq<(Seq<char>, Option<Seq<char>>, Option<Seq<char>>)> {
    let i = find_key(d, key);
    if 0 <= i < d.len() {
        d.update(i, (key, client, server))
    } else {
        d.push((key, client, server))
    }
}

/// The entry carrying `key`, if any.
pub open spec fn data_lookup(
    d: Seq<(Seq<char>, Option<Seq<char>>, Option<Seq<char>>)>,
    key: Seq<char>,
) -> Option<(Seq<char>, Option<Seq<char>>, Option<Seq<char>>)> {
    let i = find_key(d, key);
    if 0 <= i < d.len() {
        Some(d[i])
    } else {
        None
    }
}

/// Looking a key up right after setting it yields exactly what was set.
pub proof fn lemma_lookup_upsert(
    d: Seq<(Seq<char>, Option<Seq<char>>, Option<Seq<char>>)>,
    key: Seq<char>,
    client: Option<Seq<char>>,
    server: Option<Seq<char>>,
)
    ensures
        data_lookup(upsert_data(d, key, client, server), key) == Some((key, client, server)),
{
    lemma_find_key(d, key);
    let i = find_key(d, key);
    if 0 <= i < d.len() {
        let u = d.update(i, (key, client, server));
        assert forall|j: int| 0 <= j < i implies (#[trigger] u[j]).0 != key by {
            assert(u[j] == d[j]);
        }
        lemma_find_key_is(u, key, i);
    } else {
        let u = d.push((key, client, server));
        assert forall|j: int| 0 <= j < d.len() implies (#[trigger] u[j]).0 != key by {
            assert(u[j] == d[j]);
        }
        lemma_find_key_is(u, key, d.len() as int);
    }
}

/// Setting one key leaves the lookup of every other key unchanged.
pub proof fn lemma_lookup_upsert_other(
    d: Seq<(Seq<char>, Option<Seq<char>>, Option<Seq<char>>)>,
    key: Seq<char>,
    client: Option<Seq<char>>,
    server: Option<Seq<char>>,
    other: Seq<char>,
)
    requires
        key != other,
    ensures
        data_lookup(upsert_data(d, key, client, server), other) == data_lookup(d, other),
{
    lemma_find_key(d, key);
    lemma_find_key(d, other);
    let i = find_key(d, key);
    let j = find_key(d, other);
    let u = upsert_data(d, key, client, server);
    if 0 <= j < d.len() {
        assert(u[j].0 == other);
        assert forall|x: int| 0 <= x < j implies (#[trigger] u[x]).0 != other by {
            if x != i {
                assert(u[x] == d[x]);
            }
        }
        lemma_find_key_is(u, other, j);
        assert(u[j] == d[j]);
    } else {
        lemma_find_key(u, other);
        if find_key(u, other) >= 0 {
            let x = find_key(u, other);
            assert(u[x].0 == other);
            if x != i && x < d.len() {
                assert(u[x] == d[x]);
            }
            assert(false);
        }
    }
}

/// Every entry of the incoming data map that the patch does not name keeps
/// exactly its value: the underlying document is never mutated
/// destructively.
pub proof fn lemma_patch_preserves_other_keys(
    d: Seq<(Seq<char>, Option<Seq<char>>, Option<Seq<char>>)>,
    label: Seq<char>,
    has_server_patch: bool,
    has_client_patch: bool,
    key: Seq<char>,
)
    requires
        key != "INSTALLER"@,
        key != "BINPATCH"@,
    ensures
        data_lookup(patch_data_spec(d, label, has_server_patch, has_client_patch), key)
            == data_lookup(d, key),
{
    let d1 = upsert_data(
        d,
        "INSTALLER"@,
        Some(installer_coord(label)),
        Some(installer_coord(label)),
    );
    lemma_lookup_upsert_other(
        d,
        "INSTALLER"@,
        Some(installer_coord(label)),
        Some(installer_coord(label)),
        key,
    );
    let d2 = if has_server_patch {
        upsert_data(d1, "BINPATCH"@, None, Some(serverdata_coord(label)))
    } else {
        d1
    };
    if has_server_patch {
        lemma_lookup_upsert_other(d1, "BINPATCH"@, None, Some(serverdata_coord(label)), key);
    }
    if has_client_patch {
        lemma_lookup_upsert_other(
            d2,
            "BINPATCH"@,
            Some(clientdata_coord(label)),
            Some(binpatch_server_of(d2)),
            key,
        );
    }
}

/// The bracketed maven coordinate of the installer itself.
pub open spec fn installer_coord(label: Seq<char>) -> Seq<char> {
    "[net.minecraftforge:forge:"@ + label + ":installer]"@
}

/// The bracketed maven coordinate of the server binary patch.
pub open spec fn serverdata_coord(label: Seq<char>) -> Seq<char> {
    "[net.minecraftforge:forge:"@ + label + ":serverdata@lzma]"@
}

/// The bracketed maven coordinate of the client binary patch.
pub open spec fn clientdata_coord(label: Seq<char>) -> Seq<char> {
    "[net.minecraftforge:forge:"@ + label + ":clientdata@lzma]"@
}

/// The server value already recorded under BINPATCH, or the empty string.
pub open spec fn binpatch_server_of(
    d: Seq<(Seq<char>, Option<Seq<char>>, Option<Seq<char>>)>,
) -> Seq<char> {
    match data_lookup(d, "BINPATCH"@) {
        Some(t) => match t.2 {
            Some(s) => s,
            None => Seq::<char>::empty(),
        },
        None => Seq::<char>::empty(),
    }
}

/// The whole data-map patch of the unpacker: the INSTALLER entry is always
/// set on both sides; a server patch sets BINPATCH to the server coordinate
/// with the client side unset; a client patch then overwrites BINPATCH with
/// the client coordinate while keeping whatever server value was present.
pub open spec fn patch_data_spec(
    d: Seq<(Seq<char>, Option<Seq<char>>, Option<Seq<char>>)>,
    label: Seq<char>,
    has_server_patch: bool,
    has_client_patch: bool,
) -> Seq<(Seq<char>, Option<Seq<char>>, Option<Seq<char>>)> {
    let d1 = upsert_data(
        d,
        "INSTALLER"@,
        Some(installer_coord(label)),
        Some(installer_coord(label)),
    );
    let d2 = if has_server_patch {
        upsert_data(d1, "BINPATCH"@, None, Some(serverdata_coord(label)))
    } else {
        d1
    };
    if has_client_patch {
        upsert_data(d2, "BINPATCH"@, Some(clientdata_coord(label)), Some(binpatch_server_of(d2)))
    } else {
        d2
    }
}

/// The BINPATCH merge law: with only a server patch the entry carries the
/// server coordinate and no client value; with a server patch followed by a
/// client patch the client coordinate is added and the server coordinate
/// written first is preserved.
pub proof fn lemma_binpatch_merge(
    d: Seq<(Seq<char>, Option<Seq<char>>, Option<Seq<char>>)>,
    label: Seq<char>,
)
    ensures
        data_lookup(patch_data_spec(d, label, true, false), "BINPATCH"@) == Some(
            ("BINPATCH"@, None::<Seq<char>>, Some(serverdata_coord(label))),
        ),
        data_lookup(patch_data_spec(d, label, true, true), "BINPATCH"@) == Some(
            ("BINPATCH"@, Some(clientdata_coord(label)), Some(serverdata_coord(label))),
        ),
{
    let d1 = upsert_data(
        d,
        "INSTALLER"@,
        Some(installer_coord(label)),
        Some(installer_coord(label)),
    );
    let d2 = upsert_data(d1, "BINPATCH"@, None, Some(serverdata_coord(label)));
    lemma_lookup_upsert(d1, "BINPATCH"@, None, Some(serverdata_coord(label)));
    lemma_lookup_upsert(
        d2,
        "BINPATCH"@,
        Some(clientdata_coord(label)),
        Some(binpatch_server_of(d2)),
    );
}

/// Whatever data map the profile carried, the patch records the installer
/// itself under INSTALLER with the same bracketed coordinate on both sides.
pub proof fn lemma_installer_entry(
    d: Seq<(Seq<char>, Option<Seq<char>>, Option<Seq<char>>)>,
    label: Seq<char>,
    has_server_patch: bool,
    has_client_patch: bool,
)
    ensures
        data_lookup(patch_data_spec(d, label, has_server_patch, has_client_patch), "INSTALLER"@)
            == Some(
            ("INSTALLER"@, Some(installer_coord(label)), Some(installer_coord(label))),
        ),
{
    lemma_patched_keys_distinct();
    let d1 = upsert_data(
        d,
        "INSTALLER"@,
        Some(installer_coord(label)),
        Some(installer_coord(label)),
    );
    lemma_lookup_upsert(
        d,
        "INSTALLER"@,
        Some(installer_coord(label)),
        Some(installer_coord(label)),
    );
    let d2 = if has_server_patch {
        upsert_data(d1, "BINPATCH"@, None, Some(serverdata_coord(label)))
    } else {
        d1
    };
    if has_server_patch {
        lemma_lookup_upsert_other(
            d1,
            "BINPATCH"@,
            None,
            Some(serverdata_coord(label)),
            "INSTALLER"@,
        );
    }
    if has_client_patch {
        lemma_lookup_upsert_other(
            d2,
            "BINPATCH"@,
            Some(clientdata_coord(label)),
            Some(binpatch_server_of(d2)),
            "INSTALLER"@,
        );
    }
}

/// The two patched keys hold distinct names.
proof fn lemma_patched_keys_distinct()
    ensures
        "INSTALLER"@ != "BINPATCH"@,
{
    reveal_strlit("INSTALLER");
    reveal_strlit("BINPATCH");
    assert("INSTALLER"@.len() == 9);
    assert("BINPATCH"@.len() == 8);
}

/// Replaces the first entry carrying `key`, or appends a new one.
fn upsert_entry(
    data: &mut Vec<ProfileDataEntry>,
    key: &str,
    client: Option<String>,
    server: Option<String>,
)
    ensures
        entries_view(final(data)@) == upsert_data(
            entries_view(old(data)@),
            key@,
            opt_view(client),
            opt_view(server),
        ),
{
    let ghost dv = entries_view(data@);
    let entry = ProfileDataEntry { key: String::from_str(key), client, server };
    proof {
        assert(entry@ == (key@, opt_view(client), opt_view(server)));
    }
    let mut i: usize = 0;
    while i < data.len()
        invariant
            i <= data@.len(),
            data@ == old(data)@,
            dv == entries_view(data@),
            entry@ == (key@, opt_view(client), opt_view(server)),
            forall|j: int| 0 <= j < i ==> (#[trigger] dv[j]).0 != key@,
        decreases data@.len() - i,
    {
        if str_eq(data[i].key.as_str(), key) {
            proof {
                assert(dv[i as int] == data@[i as int]@);
                lemma_find_key_is(dv, key@, i as int);
            }
            let ghost prev = data@;
            data.remove(i);
            data.insert(i, entry);
            proof {
                assert(data@ =~= prev.update(i as int, entry));
                assert(entries_view(data@) =~= upsert_data(
                    dv,
                    key@,
                    opt_view(client),
                    opt_view(server),
                ));
            }
            return ;
        }
        proof {
            assert(dv[i as int] == data@[i as int]@);
        }
        i += 1;
    }
    proof {
        lemma_find_key(dv, key@);
        if find_key(dv, key@) >= 0 {
            assert(dv[find_key(dv, key@)].0 == key@);
        }
        assert(find_key(dv, key@) < 0);
    }
    data.push(entry);
    proof {
        assert(entries_view(data@) =~= dv.push((key@, opt_view(client), opt_view(server))));
    }
}

/// The server value already recorded under BINPATCH, or the empty string.
fn binpatch_server(data: &Vec<ProfileDataEntry>) -> (r: String)
    ensures
        r@ == binpatch_server_of(entries_view(data@)),
{
    let ghost dv = entries_view(data@);
    let mut i: usize = 0;
    while i < data.len()
        invariant
            i <= data@.len(),
            dv == entries_view(data@),
            forall|j: int| 0 <= j < i ==> (#[trigger] dv[j]).0 != "BINPATCH"@,
        decreases data@.len() - i,
    {
        if str_eq(data[i].key.as_str(), "BINPATCH") {
            proof {
                assert(dv[i as int] == data@[i as int]@);
                lemma_find_key_is(dv, "BINPATCH"@, i as int);
            }
            match &data[i].server {
                Some(s) => {
                    return s.clone();
                },
                None => {
                    return String::new();
                },
            }
        }
        proof {
            assert(dv[i as int] == data@[i as int]@);
        }
        i += 1;
    }
    proof {
        lemma_find_key(dv, "BINPATCH"@);
        if find_key(dv, "BINPATCH"@) >= 0 {
            assert(dv[find_key(dv, "BINPATCH"@)].0 == "BINPATCH"@);
        }
        assert(find_key(dv, "BINPATCH"@) < 0);
    }
    String::new()
}

/// Applies the unpacker's whole data-map patch for the given version label
/// and the presence of the two binary-patch blobs.
pub fn patch_profile_data(
    data: &mut Vec<ProfileDataEntry>,
    forge_version: &str,
    has_server_patch: bool,
    has_client_patch: bool,
)
    ensures
        entries_view(final(data)@) == patch_data_spec(
            entries_view(old(data)@),
            forge_version@,
            has_server_patch,
            has_client_patch,
        ),
{
    let mut coord = String::from_str("[net.minecraftforge:forge:");
    coord.append(forge_version);
    coord.append(":installer]");
    let coord2 = coord.clone();
    upsert_entry(data, "INSTALLER", Some(coord), Some(coord2));
    if has_server_patch {
        let mut sc = String::from_str("[net.minecraftforge:forge:");
        sc.append(forge_version);
        sc.append(":serverdata@lzma]");
        upsert_entry(data, "BINPATCH", None, Some(sc));
    }
    if has_client_patch {
        let prev = binpatch_server(data);
        let mut cc = String::from_str("[net.minecraftforge:forge:");
        cc.append(forge_version);
        cc.append(":clientdata@lzma]");
        upsert_entry(data, "BINPATCH", Some(cc), Some(prev));
    }
}

} // verus!
