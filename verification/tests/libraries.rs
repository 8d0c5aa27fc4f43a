use minelaunch::libraries::{
    build_classpath, library_checks, library_files, native_archives, plan_libraries,
    plan_library, LayoutError,
};
use minelaunch::platform::{Arch, Os, Platform};
use minelaunch::rules::{Rule, RuleAction, RuleOs};
use minelaunch::version::{Classifier, Download, Library, LibraryDownloads, LibraryNatives};

const LINUX64: Platform = Platform { os: Os::Linux, arch: Arch::X64 };
const MAC64: Platform = Platform { os: Os::MacOs, arch: Arch::X64 };
const WIN64: Platform = Platform { os: Os::Windows, arch: Arch::X64 };

fn download(path: Option<&str>, tag: &str) -> Download {
    Download {
        path: path.map(|p| p.to_string()),
        sha1: format!("sha1-of-{}", tag),
        size: tag.len() as u64,
        url: format!("https://libraries.example/{}", tag),
    }
}

fn simple(name: &str, path: &str) -> Library {
    Library {
        downloads: LibraryDownloads { artifact: Some(download(Some(path), name)), classifiers: None },
        name: name.to_string(),
        natives: None,
        rules: None,
    }
}

fn only_on(name: &str, path: &str, os: &str) -> Library {
    let mut library = simple(name, path);
    library.rules = Some(vec![Rule {
        action: RuleAction::Allow,
        os: Some(RuleOs { name: Some(os.to_string()), version: None, arch: None }),
        features: None,
    }]);
    library
}

fn with_natives(name: &str, artifact: Option<&str>) -> Library {
    Library {
        downloads: LibraryDownloads {
            artifact: artifact.map(|p| download(Some(p), name)),
            classifiers: Some(vec![
                Classifier {
                    name: "natives-linux".to_string(),
                    download: download(Some("n/linux.jar"), "natives-linux"),
                },
                Classifier {
                    name: "natives-macos".to_string(),
                    download: download(Some("n/macos.jar"), "natives-macos"),
                },
                Classifier {
                    name: "natives-windows".to_string(),
                    download: download(Some("n/windows.jar"), "natives-windows"),
                },
            ]),
        },
        name: name.to_string(),
        natives: Some(LibraryNatives {
            linux: Some("natives-linux".to_string()),
            osx: Some("natives-macos".to_string()),
            windows: Some("natives-windows".to_string()),
        }),
        rules: None,
    }
}

#[test]
fn a_plain_library_needs_its_artifact() {
    let plan = plan_library("/mc", &simple("a:b:1", "a/b/1/b-1.jar"), LINUX64).unwrap();
    assert_eq!(plan.name, "a:b:1");
    let artifact = plan.artifact.unwrap();
    assert_eq!(artifact.path, "/mc/libraries/a/b/1/b-1.jar");
    assert_eq!(artifact.sha1, "sha1-of-a:b:1");
    assert_eq!(artifact.size, 5);
    assert_eq!(artifact.url, "https://libraries.example/a:b:1");
    assert_eq!(artifact.label, "Library a:b:1");
    assert!(plan.native.is_none());
}

#[test]
fn the_native_bundle_is_that_of_the_operating_system() {
    let library = with_natives("lwjgl", Some("lwjgl.jar"));
    let linux = plan_library("/mc", &library, LINUX64).unwrap().native.unwrap();
    assert_eq!(linux.path, "/mc/libraries/n/linux.jar");
    assert_eq!(linux.label, "Native for lwjgl");
    assert_eq!(linux.sha1, "sha1-of-natives-linux");
    assert_eq!(linux.url, "https://libraries.example/natives-linux");
    let mac = plan_library("/mc", &library, MAC64).unwrap().native.unwrap();
    assert_eq!(mac.path, "/mc/libraries/n/macos.jar");
    let windows = plan_library("/mc", &library, WIN64).unwrap().native.unwrap();
    assert_eq!(windows.path, "/mc/libraries/n/windows.jar");
}

#[test]
fn a_library_may_have_a_native_bundle_and_no_artifact() {
    let plan = plan_library("/mc", &with_natives("platform", None), LINUX64).unwrap();
    assert!(plan.artifact.is_none());
    assert_eq!(plan.native.unwrap().path, "/mc/libraries/n/linux.jar");
}

#[test]
fn natives_not_declared_for_the_operating_system_are_none() {
    let mut library = with_natives("lwjgl", Some("lwjgl.jar"));
    library.natives = Some(LibraryNatives {
        linux: None,
        osx: Some("natives-macos".to_string()),
        windows: None,
    });
    assert!(plan_library("/mc", &library, LINUX64).unwrap().native.is_none());
    assert!(plan_library("/mc", &library, MAC64).unwrap().native.is_some());
}

#[test]
fn an_artifact_without_a_path_is_an_error() {
    let mut library = simple("a", "a.jar");
    library.downloads.artifact = Some(download(None, "a"));
    assert_eq!(plan_library("/mc", &library, LINUX64).unwrap_err(), LayoutError::MissingArtifactPath);
}

#[test]
fn a_declared_classifier_that_is_not_offered_is_an_error() {
    let mut library = with_natives("lwjgl", Some("lwjgl.jar"));
    library.natives.as_mut().unwrap().linux = Some("natives-linux-arm".to_string());
    assert_eq!(plan_library("/mc", &library, LINUX64).unwrap_err(), LayoutError::MissingClassifier);
    assert!(plan_library("/mc", &library, MAC64).is_ok());
    library.downloads.classifiers = None;
    assert_eq!(plan_library("/mc", &library, MAC64).unwrap_err(), LayoutError::MissingClassifier);
}

#[test]
fn a_classifier_without_a_path_is_an_error() {
    let mut library = with_natives("lwjgl", Some("lwjgl.jar"));
    library.downloads.classifiers.as_mut().unwrap()[0].download.path = None;
    assert_eq!(
        plan_library("/mc", &library, LINUX64).unwrap_err(),
        LayoutError::MissingClassifierPath
    );
    assert!(plan_library("/mc", &library, WIN64).is_ok());
}

#[test]
fn the_artifact_is_looked_at_before_the_native_bundle() {
    let mut library = with_natives("lwjgl", Some("lwjgl.jar"));
    library.downloads.artifact = Some(download(None, "lwjgl"));
    library.downloads.classifiers = None;
    assert_eq!(plan_library("/mc", &library, LINUX64).unwrap_err(), LayoutError::MissingArtifactPath);
}

#[test]
fn the_first_classifier_of_a_name_is_taken() {
    let mut library = with_natives("lwjgl", None);
    library.downloads.classifiers.as_mut().unwrap().push(Classifier {
        name: "natives-linux".to_string(),
        download: download(Some("n/other.jar"), "other"),
    });
    let plan = plan_library("/mc", &library, LINUX64).unwrap();
    assert_eq!(plan.native.unwrap().path, "/mc/libraries/n/linux.jar");
}

#[test]
fn libraries_whose_rules_fail_are_skipped() {
    let libraries = vec![
        simple("everywhere", "e.jar"),
        only_on("mac-only", "m.jar", "osx"),
        only_on("linux-only", "l.jar", "linux"),
    ];
    let on_linux = plan_libraries("/mc", &libraries, LINUX64).unwrap();
    let names: Vec<&str> = on_linux.iter().map(|p| p.name.as_str()).collect();
    assert_eq!(names, vec!["everywhere", "linux-only"]);
    let on_mac = plan_libraries("/mc", &libraries, MAC64).unwrap();
    let names: Vec<&str> = on_mac.iter().map(|p| p.name.as_str()).collect();
    assert_eq!(names, vec!["everywhere", "mac-only"]);
}

#[test]
fn a_skipped_library_may_be_laid_out_badly() {
    let mut broken = only_on("mac-only", "m.jar", "osx");
    broken.downloads.artifact = Some(download(None, "mac-only"));
    let libraries = vec![simple("everywhere", "e.jar"), broken];
    assert_eq!(plan_libraries("/mc", &libraries, LINUX64).unwrap().len(), 1);
    assert_eq!(
        plan_libraries("/mc", &libraries, MAC64).unwrap_err(),
        LayoutError::MissingArtifactPath
    );
}

#[test]
fn the_error_is_that_of_the_first_faulty_library() {
    let mut no_path = simple("first", "f.jar");
    no_path.downloads.artifact = Some(download(None, "first"));
    let mut no_classifier = with_natives("second", None);
    no_classifier.downloads.classifiers = None;
    assert_eq!(
        plan_libraries("/mc", &vec![simple("ok", "ok.jar"), no_path, no_classifier], LINUX64)
            .unwrap_err(),
        LayoutError::MissingArtifactPath
    );
    let mut no_path = simple("first", "f.jar");
    no_path.downloads.artifact = Some(download(None, "first"));
    let mut no_classifier = with_natives("second", None);
    no_classifier.downloads.classifiers = None;
    assert_eq!(
        plan_libraries("/mc", &vec![no_classifier, no_path], LINUX64).unwrap_err(),
        LayoutError::MissingClassifier
    );
}

#[test]
fn files_come_library_by_library_artifact_first() {
    let libraries = vec![
        simple("a", "a.jar"),
        with_natives("lwjgl", Some("lwjgl.jar")),
        with_natives("platform", None),
        only_on("mac-only", "m.jar", "osx"),
    ];
    let plans = plan_libraries("/mc", &libraries, LINUX64).unwrap();
    let files = library_files(&plans);
    let paths: Vec<&str> = files.iter().map(|f| f.path.as_str()).collect();
    assert_eq!(
        paths,
        vec![
            "/mc/libraries/a.jar",
            "/mc/libraries/lwjgl.jar",
            "/mc/libraries/n/linux.jar",
            "/mc/libraries/n/linux.jar",
        ]
    );
    let labels: Vec<&str> = files.iter().map(|f| f.label.as_str()).collect();
    assert_eq!(labels, vec!["Library a", "Library lwjgl", "Native for lwjgl", "Native for platform"]);
    let direct = library_checks("/mc", &libraries, LINUX64).unwrap();
    let direct_paths: Vec<&str> = direct.iter().map(|f| f.path.as_str()).collect();
    assert_eq!(direct_paths, paths);
}

#[test]
fn checking_libraries_reports_their_faults() {
    let mut library = simple("a", "a.jar");
    library.downloads.artifact = Some(download(None, "a"));
    assert_eq!(
        library_checks("/mc", &vec![library], LINUX64).unwrap_err(),
        LayoutError::MissingArtifactPath
    );
    assert!(library_checks("/mc", &vec![], LINUX64).unwrap().is_empty());
}

#[test]
fn native_archives_are_the_native_bundles_in_order() {
    let libraries =
        vec![simple("a", "a.jar"), with_natives("lwjgl", Some("lwjgl.jar")), simple("b", "b.jar")];
    let plans = plan_libraries("/mc", &libraries, WIN64).unwrap();
    assert_eq!(native_archives(&plans), vec!["/mc/libraries/n/windows.jar"]);
    let none = plan_libraries("/mc", &vec![simple("a", "a.jar")], WIN64).unwrap();
    assert!(native_archives(&none).is_empty());
}

#[test]
fn the_classpath_has_one_segment_more_than_artifacts() {
    let libraries = vec![
        simple("a", "a.jar"),
        only_on("mac-only", "m.jar", "osx"),
        with_natives("platform", None),
        simple("b", "b.jar"),
        with_natives("lwjgl", Some("lwjgl.jar")),
    ];
    let plans = plan_libraries("/mc", &libraries, LINUX64).unwrap();
    let classpath = build_classpath(&plans, "/mc/versions/1.0/1.0.jar", LINUX64);
    assert_eq!(
        classpath,
        "/mc/libraries/a.jar:/mc/libraries/b.jar:/mc/libraries/lwjgl.jar:/mc/versions/1.0/1.0.jar"
    );
    let segments: Vec<&str> = classpath.split(':').collect();
    assert_eq!(segments.len(), 3 + 1);
}

#[test]
fn the_classpath_is_joined_by_semicolons_on_windows() {
    let libraries = vec![simple("a", "a.jar"), simple("b", "b.jar")];
    let plans = plan_libraries("C:/mc", &libraries, WIN64).unwrap();
    assert_eq!(
        build_classpath(&plans, "C:/mc/versions/1.0/1.0.jar", WIN64),
        "C:/mc/libraries/a.jar;C:/mc/libraries/b.jar;C:/mc/versions/1.0/1.0.jar"
    );
}

#[test]
fn the_classpath_of_no_libraries_is_the_jar_alone() {
    let plans = plan_libraries("/mc", &vec![], MAC64).unwrap();
    assert_eq!(build_classpath(&plans, "/mc/versions/1.0/1.0.jar", MAC64), "/mc/versions/1.0/1.0.jar");
}
