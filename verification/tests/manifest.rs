use minelaunch::manifest::{
    MinecraftLatestVersions, MinecraftVersion, MinecraftVersionList, VersionSelection,
};

fn listed(id: &str, kind: &str) -> MinecraftVersion {
    MinecraftVersion {
        id: id.to_string(),
        version_type: kind.to_string(),
        url: format!("https://meta.example/{}.json", id),
        time: "2021-01-15T16:05:32+00:00".to_string(),
        release_time: "2021-01-14T16:05:32+00:00".to_string(),
    }
}

fn manifest() -> MinecraftVersionList {
    MinecraftVersionList {
        latest: MinecraftLatestVersions { release: "1.16.5".to_string(), snapshot: "21w03a".to_string() },
        versions: vec![
            listed("21w03a", "snapshot"),
            listed("1.16.5", "release"),
            listed("1.16.4", "release"),
        ],
    }
}

#[test]
fn the_list_offers_latest_first_then_every_version() {
    let list = VersionSelection::make_list(&manifest());
    assert_eq!(
        list,
        vec![
            VersionSelection::Latest("1.16.5".to_string()),
            VersionSelection::LatestSnapshot("21w03a".to_string()),
            VersionSelection::Version(listed("21w03a", "snapshot")),
            VersionSelection::Version(listed("1.16.5", "release")),
            VersionSelection::Version(listed("1.16.4", "release")),
        ]
    );
}

#[test]
fn the_list_of_an_empty_manifest_offers_the_latest_two() {
    let mut m = manifest();
    m.versions.clear();
    assert_eq!(VersionSelection::make_list(&m).len(), 2);
}

#[test]
fn labels() {
    assert_eq!(VersionSelection::Latest("1.16.5".to_string()).label(), "Latest Release (1.16.5)");
    assert_eq!(
        VersionSelection::LatestSnapshot("21w03a".to_string()).label(),
        "Latest Snapshot (21w03a)"
    );
    assert_eq!(VersionSelection::Version(listed("1.16.4", "release")).label(), "release 1.16.4");
    assert_eq!(VersionSelection::Version(listed("b1.7.3", "old_beta")).label(), "old_beta b1.7.3");
}

#[test]
fn latest_stands_for_the_version_of_its_id() {
    let m = manifest();
    let release = VersionSelection::Latest("1.16.5".to_string());
    assert_eq!(release.version(&m), Some(&listed("1.16.5", "release")));
    let snapshot = VersionSelection::LatestSnapshot("21w03a".to_string());
    assert_eq!(snapshot.version(&m), Some(&listed("21w03a", "snapshot")));
}

#[test]
fn an_unknown_id_stands_for_the_first_version() {
    let m = manifest();
    let unknown = VersionSelection::Latest("9.9.9".to_string());
    assert_eq!(unknown.version(&m), Some(&listed("21w03a", "snapshot")));
    let unknown = VersionSelection::LatestSnapshot("99w99a".to_string());
    assert_eq!(unknown.version(&m), Some(&listed("21w03a", "snapshot")));
}

#[test]
fn the_first_of_two_versions_with_one_id_is_taken() {
    let mut m = manifest();
    m.versions.push(listed("1.16.5", "duplicate"));
    let release = VersionSelection::Latest("1.16.5".to_string());
    assert_eq!(release.version(&m).unwrap().version_type, "release");
}

#[test]
fn a_version_stands_for_itself() {
    let m = manifest();
    let own = VersionSelection::Version(listed("1.0", "release"));
    assert_eq!(own.version(&m), Some(&listed("1.0", "release")));
}

#[test]
fn an_empty_manifest_offers_no_version() {
    let mut m = manifest();
    m.versions.clear();
    assert_eq!(VersionSelection::Latest("1.16.5".to_string()).version(&m), None);
    assert_eq!(VersionSelection::Version(listed("1.0", "release")).version(&m), None);
}

#[test]
fn clones_are_equal() {
    let v = listed("1.16.5", "release");
    assert_eq!(v.clone(), v);
    let s = VersionSelection::Version(v);
    assert_eq!(s.clone(), s);
    assert_eq!(VersionSelection::Latest("a".to_string()).clone(), VersionSelection::Latest("a".to_string()));
}
