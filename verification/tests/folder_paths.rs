use forge_installer::folder::{get_path, join_path, MinecraftLocation};

#[test]
fn folder_test() {
    let a = MinecraftLocation::new("/home/CD-DVD/test");
    println!("{:#?}", a);
}

#[test]
fn layout_paths() {
    let loc = MinecraftLocation::new("/home/CD-DVD/test");
    assert_eq!(loc.root, "/home/CD-DVD/test");
    assert_eq!(loc.assets, "/home/CD-DVD/test/assets");
    assert_eq!(loc.libraries, "/home/CD-DVD/test/libraries");
    assert_eq!(loc.resourcepacks, "/home/CD-DVD/test/resourcepacks");
    assert_eq!(loc.mods, "/home/CD-DVD/test/mods");
    assert_eq!(loc.logs, "/home/CD-DVD/test/logs");
    assert_eq!(loc.latest_log, "/home/CD-DVD/test/logs/latest.log");
    assert_eq!(loc.saves, "/home/CD-DVD/test/resourcepacks");
    assert_eq!(loc.versions, "/home/CD-DVD/test/versions");
    assert_eq!(loc.options, "/home/CD-DVD/test/options.txt");
    assert_eq!(loc.screenshots, "/home/CD-DVD/test/screenshots");
}

#[test]
fn version_paths() {
    let loc = MinecraftLocation::new("mc");
    assert_eq!(loc.get_version_root("1.13.2"), "mc/versions/1.13.2");
    assert_eq!(loc.get_version_json("1.13.2"), "mc/versions/1.13.2/1.13.2.json");
    assert_eq!(loc.get_version_jar("1.13.2", None), "mc/versions/1.13.2/1.13.2.jar");
    assert_eq!(loc.get_version_jar("1.13.2", Some("client")), "mc/versions/1.13.2/1.13.2.jar");
    assert_eq!(
        loc.get_version_jar("1.13.2", Some("server")),
        "mc/versions/1.13.2/1.13.2-server.jar"
    );
    let all = loc.get_version_all("1.7.2");
    assert_eq!(all.len(), 3);
    assert_eq!(all[0], "mc/versions/1.7.2");
    assert_eq!(all[1], "mc/versions/1.7.2/1.7.2.json");
    assert_eq!(all[2], "mc/versions/1.7.2/1.7.2.jar");
    assert_eq!(loc.get_natives_root("1.7.2"), "1.7.2/1.7.2-natives.jar");
}

#[test]
fn misc_paths() {
    let loc = MinecraftLocation::new("mc");
    assert_eq!(loc.get_resource_pack("pack.zip"), "mc/resourcepacks/pack.zip");
    assert_eq!(loc.get_mod("m.jar"), "mc/mods/m.jar");
    assert_eq!(loc.get_log("old.log"), "mc/logs/old.log");
    assert_eq!(loc.get_library_by_path("a/b/c.jar"), "mc/libraries/a/b/c.jar");
    assert_eq!(get_path(&String::from("x/y")), "x/y");
    assert_eq!(join_path("", "b"), "b");
    assert_eq!(join_path("a/", "b"), "a/b");
    assert_eq!(join_path("a", "b"), "a/b");
}
