use forge_installer::entries::{classify_installer, Entry, ForgeInstallerEntries, ForgeType};
use forge_installer::profile::{patch_profile_data, ProfileDataEntry};

fn entry(name: &str) -> Option<Entry> {
    Some(Entry { name: name.to_string(), content: vec![1u8, 2u8] })
}

fn entries_with(
    profile: bool,
    version: bool,
    legacy: bool,
) -> ForgeInstallerEntries {
    ForgeInstallerEntries {
        forge_jar: None,
        forge_universal_jar: None,
        client_lzma: None,
        server_lzma: None,
        install_profile_json: if profile { entry("install_profile.json") } else { None },
        version_json: if version { entry("version.json") } else { None },
        legacy_universal_jar: if legacy { entry("forge-x-universal.jar") } else { None },
        run_sh: None,
        run_bat: None,
        unix_args: None,
        user_jvm_args: None,
        win_args: None,
    }
}

#[test]
fn shape_new_when_version_doc_present() {
    assert_eq!(classify_installer(&entries_with(true, true, false)), ForgeType::New);
    assert_eq!(classify_installer(&entries_with(true, true, true)), ForgeType::New);
}

#[test]
fn shape_legacy_when_only_legacy_jar_present() {
    assert_eq!(classify_installer(&entries_with(true, false, true)), ForgeType::Legacy);
}

#[test]
fn shape_bad_when_neither_present() {
    assert_eq!(classify_installer(&entries_with(true, false, false)), ForgeType::Bad);
}

#[test]
fn shape_bad_without_install_profile() {
    assert_eq!(classify_installer(&entries_with(false, true, true)), ForgeType::Bad);
    assert_eq!(classify_installer(&entries_with(false, true, false)), ForgeType::Bad);
    assert_eq!(classify_installer(&entries_with(false, false, true)), ForgeType::Bad);
    assert_eq!(classify_installer(&entries_with(false, false, false)), ForgeType::Bad);
}

fn lookup<'a>(data: &'a [ProfileDataEntry], key: &str) -> &'a ProfileDataEntry {
    data.iter().find(|e| e.key == key).unwrap()
}

#[test]
fn installer_entry_always_set() {
    let mut data: Vec<ProfileDataEntry> = Vec::new();
    patch_profile_data(&mut data, "25.0.160", false, false);
    let installer = lookup(&data, "INSTALLER");
    assert_eq!(
        installer.client.as_deref(),
        Some("[net.minecraftforge:forge:25.0.160:installer]")
    );
    assert_eq!(
        installer.server.as_deref(),
        Some("[net.minecraftforge:forge:25.0.160:installer]")
    );
    assert!(data.iter().all(|e| e.key != "BINPATCH"));
}

#[test]
fn binpatch_server_only() {
    let mut data: Vec<ProfileDataEntry> = Vec::new();
    patch_profile_data(&mut data, "25.0.160", true, false);
    let binpatch = lookup(&data, "BINPATCH");
    assert_eq!(binpatch.client, None);
    assert_eq!(
        binpatch.server.as_deref(),
        Some("[net.minecraftforge:forge:25.0.160:serverdata@lzma]")
    );
}

#[test]
fn binpatch_server_then_client_preserves_server() {
    let mut data: Vec<ProfileDataEntry> = Vec::new();
    patch_profile_data(&mut data, "25.0.160", true, true);
    let binpatch = lookup(&data, "BINPATCH");
    assert_eq!(
        binpatch.client.as_deref(),
        Some("[net.minecraftforge:forge:25.0.160:clientdata@lzma]")
    );
    assert_eq!(
        binpatch.server.as_deref(),
        Some("[net.minecraftforge:forge:25.0.160:serverdata@lzma]")
    );
}

#[test]
fn binpatch_client_only_keeps_empty_server() {
    let mut data: Vec<ProfileDataEntry> = Vec::new();
    patch_profile_data(&mut data, "25.0.160", false, true);
    let binpatch = lookup(&data, "BINPATCH");
    assert_eq!(
        binpatch.client.as_deref(),
        Some("[net.minecraftforge:forge:25.0.160:clientdata@lzma]")
    );
    assert_eq!(binpatch.server.as_deref(), Some(""));
}

#[test]
fn existing_entries_are_preserved() {
    let mut data = vec![ProfileDataEntry {
        key: "MOJMAPS".to_string(),
        client: Some("[a]".to_string()),
        server: Some("[b]".to_string()),
    }];
    patch_profile_data(&mut data, "25.0.160", true, false);
    let kept = lookup(&data, "MOJMAPS");
    assert_eq!(kept.client.as_deref(), Some("[a]"));
    assert_eq!(kept.server.as_deref(), Some("[b]"));
    assert_eq!(data.len(), 3);
}
