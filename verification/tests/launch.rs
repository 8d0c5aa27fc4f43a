use minelaunch::env::Environment;
use minelaunch::launch::{
    bind_version, collect_argument_templates, construct_launch_args, launch_minecraft_version,
    launcher_environment, resolve_arguments, LaunchError,
};
use minelaunch::libraries::LayoutError;
use minelaunch::platform::{Arch, Os, Platform};
use minelaunch::rules::{Rule, RuleAction, RuleFeature, RuleOs};
use minelaunch::version::{
    Argument, Download, DynamicArgument, JavaVersion, Library, LibraryDownloads, SingleOrVec,
    VersionArguments, VersionAssets, VersionDownloads, VersionSpec,
};

const LINUX64: Platform = Platform { os: Os::Linux, arch: Arch::X64 };
const MAC64: Platform = Platform { os: Os::MacOs, arch: Arch::X64 };
const WIN32: Platform = Platform { os: Os::Windows, arch: Arch::X86 };
const WIN64: Platform = Platform { os: Os::Windows, arch: Arch::X64 };
const HEAP_DUMP: &str =
    "-XX:HeapDumpPath=MojangTricksIntelDriversForPerformance_javaw.exe_minecraft.exe.heapdump";

fn text(s: &str) -> Argument {
    Argument::Static(s.to_string())
}

fn on_os(name: &str, value: SingleOrVec<String>) -> Argument {
    Argument::Dynamic(DynamicArgument {
        rules: vec![Rule {
            action: RuleAction::Allow,
            os: Some(RuleOs { name: Some(name.to_string()), version: None, arch: None }),
            features: None,
        }],
        value,
    })
}

fn on_feature(name: &str, value: SingleOrVec<String>) -> Argument {
    Argument::Dynamic(DynamicArgument {
        rules: vec![Rule {
            action: RuleAction::Allow,
            os: None,
            features: Some(vec![RuleFeature { name: name.to_string(), enabled: true }]),
        }],
        value,
    })
}

fn one(s: &str) -> SingleOrVec<String> {
    SingleOrVec::Single(s.to_string())
}

fn many(values: &[&str]) -> SingleOrVec<String> {
    SingleOrVec::Vector(values.iter().map(|s| s.to_string()).collect())
}

fn library(name: &str, path: Option<&str>) -> Library {
    Library {
        downloads: LibraryDownloads {
            artifact: Some(Download {
                path: path.map(|p| p.to_string()),
                sha1: "0000".to_string(),
                size: 1,
                url: "https://libraries.example/".to_string(),
            }),
            classifiers: None,
        },
        name: name.to_string(),
        natives: None,
        rules: None,
    }
}

fn version(id: &str, assets: &str) -> VersionSpec {
    VersionSpec {
        arguments: None,
        asset_index: VersionAssets {
            id: assets.to_string(),
            sha1: "1111".to_string(),
            size: 2,
            total_size: 3,
            url: "https://meta.example/index.json".to_string(),
        },
        assets: assets.to_string(),
        downloads: VersionDownloads {
            client: Download {
                path: None,
                sha1: "2222".to_string(),
                size: 4,
                url: "https://meta.example/client.jar".to_string(),
            },
            server: None,
            client_mappings: None,
            server_mappings: None,
        },
        id: id.to_string(),
        java_version: None,
        libraries: vec![library("a", Some("a/a.jar")), library("b", Some("b/b.jar"))],
        main_class: "net.minecraft.client.main.Main".to_string(),
        minecraft_arguments: None,
        minimum_launcher_version: 21,
        version_type: "release".to_string(),
    }
}

fn structured(id: &str) -> VersionSpec {
    let mut v = version(id, "1.16");
    v.arguments = Some(VersionArguments {
        jvm: vec![
            on_os("osx", many(&["-XstartOnFirstThread"])),
            on_os("windows", one(HEAP_DUMP)),
            on_os("windows", many(&["-Dos.name=Windows 10", "-Dos.version=10.0"])),
            text("-Djava.library.path=${natives_directory}"),
            text("-Dminecraft.launcher.brand=${launcher_name}"),
            text("-cp"),
            text("${classpath}"),
        ],
        game: vec![
            text("--username"),
            text("${auth_player_name}"),
            text("--version"),
            text("${version_name}"),
            on_feature("is_demo_user", one("--demo")),
            on_feature("has_custom_resolution", many(&["--width", "${resolution_width}"])),
        ],
    });
    v
}

fn legacy(id: &str) -> VersionSpec {
    let mut v = version(id, "legacy");
    v.minecraft_arguments = Some(
        "--username ${auth_player_name} --session ${auth_session} --gameDir ${game_directory} --assetsDir ${game_assets}"
            .to_string(),
    );
    v.main_class = "net.minecraft.launchwrapper.Launch".to_string();
    v
}

fn launcher_env(root: &str) -> Environment {
    let mut env = Environment::new();
    env.set("game_directory", root);
    env.set("launcher_name", "Minelaunch");
    env.set("launcher_version", "0.1.0");
    env.set("auth_player_name", "Steve");
    env
}

#[test]
fn structured_arguments_on_linux() {
    let v = structured("1.16.5");
    let mut env = launcher_env("/mc");
    bind_version(&mut env, "/mc", &v);
    let r = construct_launch_args("/mc", &v, &mut env, "/tmp/natives", LINUX64).unwrap();
    assert_eq!(
        r.args,
        vec![
            "-Djava.library.path=/tmp/natives",
            "-Dminecraft.launcher.brand=Minelaunch",
            "-cp",
            "/mc/libraries/a/a.jar:/mc/libraries/b/b.jar:/mc/versions/1.16.5/1.16.5.jar",
            "net.minecraft.client.main.Main",
            "--username",
            "Steve",
            "--version",
            "1.16.5",
        ]
    );
    assert!(r.undefined.is_empty());
}

#[test]
fn structured_arguments_take_every_value_of_a_satisfied_list() {
    let v = structured("1.16.5");
    let mut env = launcher_env("C:/mc");
    let r = construct_launch_args("C:/mc", &v, &mut env, "C:/natives", WIN64).unwrap();
    assert_eq!(
        r.args[..3],
        [HEAP_DUMP.to_string(), "-Dos.name=Windows 10".to_string(), "-Dos.version=10.0".to_string()]
    );
    let mut env = launcher_env("/mc");
    let r = construct_launch_args("/mc", &v, &mut env, "/natives", MAC64).unwrap();
    assert_eq!(r.args[0], "-XstartOnFirstThread");
    assert_eq!(r.args[1], "-Djava.library.path=/natives");
}

#[test]
fn arguments_gated_on_a_feature_are_left_out() {
    let v = structured("1.16.5");
    let templates = collect_argument_templates("/mc/versions/1.16.5/1.16.5.jar", &v, LINUX64).unwrap();
    assert!(!templates.contains(&"--demo".to_string()));
    assert!(!templates.contains(&"--width".to_string()));
    assert!(!templates.contains(&"${resolution_width}".to_string()));
    assert_eq!(templates.len(), 9);
}

#[test]
fn the_main_class_stands_between_jvm_and_game_arguments() {
    let mut v = version("x", "x");
    v.arguments = Some(VersionArguments { jvm: vec![text("-jvm")], game: vec![text("--game")] });
    let templates = collect_argument_templates("jar", &v, LINUX64).unwrap();
    assert_eq!(templates, vec!["-jvm", "net.minecraft.client.main.Main", "--game"]);
    v.arguments = Some(VersionArguments { jvm: vec![], game: vec![] });
    let templates = collect_argument_templates("jar", &v, LINUX64).unwrap();
    assert_eq!(templates, vec!["net.minecraft.client.main.Main"]);
}

#[test]
fn legacy_arguments_on_32_bit_windows() {
    let v = legacy("1.5.2");
    let mut env = launcher_env("C:/mc");
    bind_version(&mut env, "C:/mc", &v);
    let r = construct_launch_args("C:/mc", &v, &mut env, "C:/tmp/natives", WIN32).unwrap();
    assert_eq!(
        r.args,
        vec![
            HEAP_DUMP,
            "-Xss1M",
            "-Djava.library.path=C:/tmp/natives",
            "-Dminecraft.launcher.brand=Minelaunch",
            "-Dminecraft.launcher.version=0.1.0",
            "-Dminecraft.client.jar=C:/mc/versions/1.5.2/1.5.2.jar",
            "-cp",
            "C:/mc/libraries/a/a.jar;C:/mc/libraries/b/b.jar;C:/mc/versions/1.5.2/1.5.2.jar",
            "net.minecraft.launchwrapper.Launch",
            "--username",
            "Steve",
            "--session",
            "",
            "--gameDir",
            "C:/mc",
            "--assetsDir",
            "C:/mc/assets/virtual/legacy/",
        ]
    );
    assert_eq!(r.undefined, vec!["auth_session"]);
}

#[test]
fn legacy_platform_flags() {
    let v = legacy("1.5.2");
    let first = |platform| {
        collect_argument_templates("jar", &v, platform).unwrap().into_iter().take(3).collect::<Vec<_>>()
    };
    assert_eq!(
        first(LINUX64),
        vec![
            "-Djava.library.path=${natives_directory}",
            "-Dminecraft.launcher.brand=${launcher_name}",
            "-Dminecraft.launcher.version=${launcher_version}",
        ]
    );
    assert_eq!(
        first(MAC64),
        vec![
            "-XstartOnFirstThread",
            "-Djava.library.path=${natives_directory}",
            "-Dminecraft.launcher.brand=${launcher_name}",
        ]
    );
    assert_eq!(
        first(Platform { os: Os::Linux, arch: Arch::X86 }),
        vec![
            "-Xss1M",
            "-Djava.library.path=${natives_directory}",
            "-Dminecraft.launcher.brand=${launcher_name}",
        ]
    );
    assert_eq!(
        first(WIN64),
        vec![
            HEAP_DUMP,
            "-Djava.library.path=${natives_directory}",
            "-Dminecraft.launcher.brand=${launcher_name}",
        ]
    );
}

#[test]
fn legacy_arguments_are_split_at_every_space() {
    let mut v = legacy("1.5.2");
    v.minecraft_arguments = Some("${auth_player_name}  ${auth_session} ".to_string());
    let templates = collect_argument_templates("jar", &v, LINUX64).unwrap();
    assert_eq!(templates[7..], ["${auth_player_name}", "", "${auth_session}", ""]);
}

#[test]
fn structured_arguments_win_over_a_legacy_string() {
    let mut v = structured("1.16.5");
    v.minecraft_arguments = Some("--legacy".to_string());
    let templates = collect_argument_templates("jar", &v, LINUX64).unwrap();
    assert!(!templates.contains(&"--legacy".to_string()));
    assert_eq!(templates.len(), 9);
}

#[test]
fn a_version_without_arguments_cannot_be_launched() {
    let v = version("broken", "x");
    assert!(collect_argument_templates("jar", &v, LINUX64).is_none());
    let mut env = launcher_env("/mc");
    let r = construct_launch_args("/mc", &v, &mut env, "/n", LINUX64);
    assert_eq!(r.unwrap_err(), LaunchError::MissingArguments);
    assert_eq!(env.get("classpath"), None);
    assert_eq!(env.get("natives_directory"), None);
}

#[test]
fn a_fault_in_the_libraries_comes_before_missing_arguments() {
    let mut v = version("broken", "x");
    v.libraries.push(library("no-path", None));
    let mut env = launcher_env("/mc");
    let r = construct_launch_args("/mc", &v, &mut env, "/n", LINUX64);
    assert_eq!(r.unwrap_err(), LaunchError::Layout(LayoutError::MissingArtifactPath));
    assert_eq!(env.get("classpath"), None);
    let mut v = structured("1.16.5");
    v.libraries.push(library("no-path", None));
    let r = construct_launch_args("/mc", &v, &mut env, "/n", LINUX64);
    assert_eq!(r.unwrap_err(), LaunchError::Layout(LayoutError::MissingArtifactPath));
}

#[test]
fn composing_binds_classpath_and_natives_directory() {
    let v = structured("1.16.5");
    let mut env = launcher_env("/mc");
    env.set("classpath", "stale");
    construct_launch_args("/mc", &v, &mut env, "/tmp/n", LINUX64).unwrap();
    assert_eq!(
        env.get("classpath").unwrap(),
        "/mc/libraries/a/a.jar:/mc/libraries/b/b.jar:/mc/versions/1.16.5/1.16.5.jar"
    );
    assert_eq!(env.get("natives_directory").unwrap(), "/tmp/n");
    assert_eq!(env.get("launcher_name").unwrap(), "Minelaunch");
}

#[test]
fn binding_a_version_sets_its_five_facts() {
    let v = structured("1.16.5");
    let mut env = Environment::new();
    env.set("version_name", "old");
    bind_version(&mut env, "/mc", &v);
    assert_eq!(env.get("version_name").unwrap(), "1.16.5");
    assert_eq!(env.get("version_type").unwrap(), "release");
    assert_eq!(env.get("assets_root").unwrap(), "/mc/assets/");
    assert_eq!(env.get("assets_index_name").unwrap(), "1.16");
    assert_eq!(env.get("game_assets").unwrap(), "/mc/assets/virtual/1.16/");
    assert_eq!(env.get("classpath"), None);
}

#[test]
fn resolving_arguments_reports_undefined_keys_in_order() {
    let mut env = Environment::new();
    env.set("b", "B");
    let templates: Vec<String> =
        ["${a}", "plain", "${b}${c}", "${a}"].iter().map(|s| s.to_string()).collect();
    let r = resolve_arguments(&templates, &env);
    assert_eq!(r.args, vec!["", "plain", "B", ""]);
    assert_eq!(r.undefined, vec!["a", "c", "a"]);
    let none = resolve_arguments(&vec![], &env);
    assert!(none.args.is_empty() && none.undefined.is_empty());
}

#[test]
fn the_command_runs_the_java_of_the_versions_runtime() {
    let mut v = structured("1.17");
    v.java_version = Some(JavaVersion { component: "java-runtime-alpha".to_string(), major_version: 16 });
    let command = launch_minecraft_version("/mc", &v, launcher_env("/mc"), "/n", LINUX64).unwrap();
    assert_eq!(command.program, "/mc/runtime/java16-linux-x64/bin/java");
    assert_eq!(command.args[6], "Steve");
    assert_eq!(command.args[8], "1.17");
    assert!(command.undefined.is_empty());
    let v = legacy("1.5.2");
    let command = launch_minecraft_version("C:/mc", &v, launcher_env("C:/mc"), "C:/n", WIN32).unwrap();
    assert_eq!(command.program, "C:/mc/runtime/java8-windows-x86/bin/java");
    assert_eq!(command.undefined, vec!["auth_session"]);
    assert_eq!(command.args[16], "C:/mc/assets/virtual/legacy/");
}

#[test]
fn the_command_of_a_version_without_arguments_is_an_error() {
    let v = version("broken", "x");
    let r = launch_minecraft_version("/mc", &v, launcher_env("/mc"), "/n", LINUX64);
    assert_eq!(r.unwrap_err(), LaunchError::MissingArguments);
}

#[test]
fn a_launcher_starts_with_an_offline_user_without_a_name() {
    let env = launcher_environment(".", "0.2.0");
    assert_eq!(env.get("game_directory").unwrap(), ".");
    assert_eq!(env.get("launcher_name").unwrap(), "Minelaunch");
    assert_eq!(env.get("launcher_version").unwrap(), "0.2.0");
    assert_eq!(env.get("auth_player_name").unwrap(), "");
    assert_eq!(env.get("auth_uuid").unwrap(), "");
    assert_eq!(env.get("auth_access_token").unwrap(), "");
    assert_eq!(env.get("user_type").unwrap(), "offline");
    assert_eq!(env.get("classpath"), None);
}
