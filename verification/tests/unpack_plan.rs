use forge_installer::entries::{classify_installer, walk_forge_installer_entries, ForgeType};
use forge_installer::fetch::{plan_installer_download, InstallerIntegrity, RequiredVersion};
use forge_installer::folder::MinecraftLocation;
use forge_installer::jsondoc::{parse_json_document, patch_version_document, InstallForgeOptions};
use forge_installer::unpack::unpack_forge_installer;
use forge_installer::InstallError;

fn build_archive(files: &[(&str, &[u8])]) -> Vec<u8> {
    let mut cursor = std::io::Cursor::new(Vec::new());
    {
        let mut writer = zip::ZipWriter::new(&mut cursor);
        let options = zip::write::SimpleFileOptions::default();
        for (name, content) in files {
            writer.start_file(*name, options).unwrap();
            std::io::Write::write_all(&mut writer, content).unwrap();
        }
        writer.finish().unwrap();
    }
    cursor.into_inner()
}

#[test]
fn end_to_end_new_shape_plan() {
    let archive = build_archive(&[
        ("version.json", b"{\"id\":\"test\"}"),
        ("install_profile.json", b"{}"),
        ("data/client.lzma", b"CLIENTDATA"),
        ("data/server.lzma", b"SERVERDATA"),
    ]);
    let entries = walk_forge_installer_entries(&archive, "25.0.160");
    assert_eq!(classify_installer(&entries), ForgeType::New);
    assert_eq!(
        entries.version_json.as_ref().unwrap().content,
        b"{\"id\":\"test\"}".to_vec()
    );
    assert_eq!(entries.client_lzma.as_ref().unwrap().name, "data/client.lzma");
    assert!(entries.forge_jar.is_none());
    assert!(entries.legacy_universal_jar.is_none());

    let mut version_doc =
        parse_json_document(&entries.version_json.as_ref().unwrap().content.clone()).unwrap();
    let profile_doc =
        parse_json_document(&entries.install_profile_json.as_ref().unwrap().content.clone())
            .unwrap();
    patch_version_document(&mut version_doc, &None).unwrap();

    let minecraft = MinecraftLocation::new("versions");
    let plan = unpack_forge_installer(
        entries,
        &version_doc,
        &profile_doc,
        "25.0.160",
        &minecraft,
        "versions/forge-installer.jar",
    )
    .unwrap();

    assert_eq!(plan.version_id, "test");
    assert_eq!(plan.version_json_path, "versions/test.json");
    assert_eq!(plan.install_profile_path, "versions/install_profile.json");
    assert!(plan.version_json_content.contains("\"id\": \"test\""));
    assert!(plan.install_profile_content.contains("INSTALLER"));
    assert!(plan.install_profile_content.contains("BINPATCH"));

    // Both binary patches are queued, in server-then-client order, and both
    // target one and the same canonical Forge jar path.
    assert_eq!(plan.extraction_tasks.len(), 2);
    assert_eq!(plan.extraction_tasks[0].0, "data/server.lzma");
    assert_eq!(plan.extraction_tasks[1].0, "data/client.lzma");
    assert_eq!(plan.extraction_tasks[0].1, plan.extraction_tasks[1].1);
    assert_eq!(
        plan.extraction_tasks[1].1,
        "versions/libraries/net/minecraftforge/forge/25.0.160/forge-25.0.160.jar"
    );
    assert!(plan.direct_writes.is_empty());
}

#[test]
fn version_overrides_are_applied() {
    let bytes = b"{\"id\":\"orig\",\"other\":\"kept\"}".to_vec();
    let mut doc = parse_json_document(&bytes).unwrap();
    let options = Some(InstallForgeOptions {
        version_id: Some("1.7.2-forge-10.12.2.1161".to_string()),
        inherits_from: Some("1.7.2".to_string()),
    });
    patch_version_document(&mut doc, &options).unwrap();
    assert_eq!(doc.get("id").and_then(|v| v.as_str()), Some("1.7.2-forge-10.12.2.1161"));
    assert_eq!(doc.get("inheritsFrom").and_then(|v| v.as_str()), Some("1.7.2"));
    assert_eq!(doc.get("other").and_then(|v| v.as_str()), Some("kept"));
}

#[test]
fn version_document_without_id_is_bad() {
    let archive = build_archive(&[
        ("version.json", b"{\"name\":\"x\"}"),
        ("install_profile.json", b"{}"),
    ]);
    let entries = walk_forge_installer_entries(&archive, "25.0.160");
    let version_doc =
        parse_json_document(&entries.version_json.as_ref().unwrap().content.clone()).unwrap();
    let profile_doc =
        parse_json_document(&entries.install_profile_json.as_ref().unwrap().content.clone())
            .unwrap();
    let minecraft = MinecraftLocation::new("root");
    let err = unpack_forge_installer(
        entries,
        &version_doc,
        &profile_doc,
        "25.0.160",
        &minecraft,
        "root/i.jar",
    )
    .unwrap_err();
    assert_eq!(err, InstallError::BadInstallerArchive);
}

#[test]
fn primary_jar_without_universal_is_inconsistent() {
    let jar_name = "maven/net/minecraftforge/forge/25.0.160/forge-25.0.160.jar";
    let archive = build_archive(&[
        ("version.json", b"{\"id\":\"t\"}"),
        ("install_profile.json", b"{}"),
        (jar_name, b"JAR"),
    ]);
    let entries = walk_forge_installer_entries(&archive, "25.0.160");
    assert!(entries.forge_jar.is_some());
    assert!(entries.forge_universal_jar.is_none());
    let version_doc =
        parse_json_document(&entries.version_json.as_ref().unwrap().content.clone()).unwrap();
    let profile_doc =
        parse_json_document(&entries.install_profile_json.as_ref().unwrap().content.clone())
            .unwrap();
    let minecraft = MinecraftLocation::new("root");
    let err = unpack_forge_installer(
        entries,
        &version_doc,
        &profile_doc,
        "25.0.160",
        &minecraft,
        "root/i.jar",
    )
    .unwrap_err();
    assert_eq!(err, InstallError::InconsistentArchive);
}

#[test]
fn full_archive_plans_every_artifact() {
    let jar_name = "maven/net/minecraftforge/forge/25.0.160/forge-25.0.160.jar";
    let universal_name = "maven/net/minecraftforge/forge/25.0.160/forge-25.0.160-universal.jar";
    let profile_json =
        b"{\"data\":{\"MOJMAPS\":{\"client\":\"[a]\",\"server\":\"[b]\"}},\"processors\":[]}";
    let archive = build_archive(&[
        ("version.json", b"{\"id\":\"deep\"}"),
        ("install_profile.json", profile_json),
        (jar_name, b"JARBYTES"),
        (universal_name, b"UNIVERSAL"),
        ("data/run.sh", b"#!/bin/sh"),
        ("data/run.bat", b"@echo off"),
    ]);
    let entries = walk_forge_installer_entries(&archive, "25.0.160");
    assert_eq!(classify_installer(&entries), ForgeType::New);
    let version_doc =
        parse_json_document(&entries.version_json.as_ref().unwrap().content.clone()).unwrap();
    let profile_doc =
        parse_json_document(&entries.install_profile_json.as_ref().unwrap().content.clone())
            .unwrap();
    let minecraft = MinecraftLocation::new("mc");
    let plan = unpack_forge_installer(
        entries,
        &version_doc,
        &profile_doc,
        "25.0.160",
        &minecraft,
        "mc/libraries/net/minecraftforge/forge/25.0.160/installer.jar",
    )
    .unwrap();

    // The universal jar is queued first, to its canonical library path.
    assert_eq!(plan.extraction_tasks.len(), 1);
    assert_eq!(plan.extraction_tasks[0].0, universal_name);
    assert_eq!(plan.extraction_tasks[0].1, format!("mc/libraries/{}", universal_name));

    // The primary jar is written to the path named by the universal entry
    // with its first segment dropped; the scripts land under the data root.
    assert_eq!(plan.direct_writes.len(), 3);
    assert_eq!(
        plan.direct_writes[0].0,
        "mc/libraries/net/minecraftforge/forge/25.0.160/forge-25.0.160-universal.jar"
    );
    assert_eq!(plan.direct_writes[0].1, b"JARBYTES".to_vec());
    assert_eq!(
        plan.direct_writes[1].0,
        "mc/libraries/net/minecraftforge/forge/25.0.160/data/run.bat"
    );
    assert_eq!(
        plan.direct_writes[2].0,
        "mc/libraries/net/minecraftforge/forge/25.0.160/data/run.sh"
    );

    // The pre-existing data entry survives beside the synthesized one.
    assert!(plan.install_profile_content.contains("MOJMAPS"));
    assert!(plan.install_profile_content.contains("INSTALLER"));
    assert!(plan.profile_data.iter().any(|e| e.key == "MOJMAPS"));
}

#[test]
fn download_plan_strips_maven_host() {
    let minecraft = MinecraftLocation::new("mc");
    let request = RequiredVersion {
        installer: Some(InstallerIntegrity { sha1: Some("abc123".to_string()) }),
        mcversion: "1.13.2".to_string(),
        version: "25.0.160".to_string(),
    };
    let link = "https://maven.minecraftforge.net/net/minecraftforge/forge/x.jar";
    let plan = plan_installer_download(link, &request, &minecraft);
    assert_eq!(plan.url, link);
    assert_eq!(plan.path, "net/minecraftforge/forge/x.jar");
    assert_eq!(plan.file_path, "mc/libraries/net/minecraftforge/forge/x.jar");
    assert_eq!(plan.sha1, "abc123");

    let bare = RequiredVersion {
        installer: None,
        mcversion: "1.13.2".to_string(),
        version: "25.0.160".to_string(),
    };
    let other = plan_installer_download("https://elsewhere.example/y.jar", &bare, &minecraft);
    assert_eq!(other.path, "https://elsewhere.example/y.jar");
    assert_eq!(other.sha1, "");
}
