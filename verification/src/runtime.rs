//! Providing the Java runtime of a version: where its archive comes from,
//! how it is unpacked, and how the unpacked tree becomes the runtime
//! directory on each operating system.

use vstd::prelude::*;
use vstd::string::*;
use crate::layout::{runtime_dir, runtime_dir_spec, runtime_root, runtime_root_spec};
use crate::platform::{
    arch_java_name, get_arch_java, get_os_java, os_java_name, Os, Platform,
};
use crate::text::{decimal, decimal_string, views};

verus! {

/// The last major version whose runtime the vendor distributes ready to
/// use. For every later version the vendor distributes a development kit,
/// from which a runtime is linked.
pub const BASELINE_JAVA_MAJOR: u8 = 8;

/// The format of a runtime archive.
#[derive(Clone, Copy, Debug, PartialEq, Eq, Structural)]
pub enum ArchiveFormat {
    Zip,
    TarGz,
}

/// One step that turns the unpacked archive into the runtime directory.
/// Paths named `from` and `tool` are relative to the single top-level
/// directory of the unpacked archive; the empty path is that directory.
#[derive(Debug)]
pub enum InstallStep {
    /// Create the directory `path`.
    CreateDir { path: String },
    /// Copy every entry below the top-level directory to the same place
    /// below `to`, directories before what they hold.
    CopyTree { to: String },
    /// Move `from` to `to`.
    Move { from: String, to: String },
    /// Run the kit's link tool with `args`.
    Link { tool: String, args: Vec<String> },
}

/// The mathematical value of an [`InstallStep`].
pub enum InstallStepView {
    CreateDir { path: Seq<char> },
    CopyTree { to: Seq<char> },
    Move { from: Seq<char>, to: Seq<char> },
    Link { tool: Seq<char>, args: Seq<Seq<char>> },
}

impl View for InstallStep {
    type V = InstallStepView;

    open spec fn view(&self) -> InstallStepView {
        match self {
            InstallStep::CreateDir { path } => InstallStepView::CreateDir { path: path@ },
            InstallStep::CopyTree { to } => InstallStepView::CopyTree { to: to@ },
            InstallStep::Move { from, to } => InstallStepView::Move { from: from@, to: to@ },
            InstallStep::Link { tool, args } => InstallStepView::Link {
                tool: tool@,
                args: views(args@),
            },
        }
    }
}

/// Everything that providing a runtime takes.
#[derive(Debug)]
pub struct RuntimePlan {
    /// The address of the archive.
    pub url: String,
    /// How the archive is unpacked.
    pub format: ArchiveFormat,
    /// The directory that holds every runtime; it is created if missing.
    pub runtime_root: String,
    /// What is done with the unpacked archive, in order.
    pub steps: Vec<InstallStep>,
}

/// The mathematical value of a [`RuntimePlan`].
pub struct RuntimePlanView {
    pub url: Seq<char>,
    pub format: ArchiveFormat,
    pub runtime_root: Seq<char>,
    pub steps: Seq<InstallStepView>,
}

impl View for RuntimePlan {
    type V = RuntimePlanView;

    open spec fn view(&self) -> RuntimePlanView {
        RuntimePlanView {
            url: self.url@,
            format: self.format,
            runtime_root: self.runtime_root@,
            steps: views(self.steps@),
        }
    }
}

/// Whether a runtime of this major version is linked from a development
/// kit.
pub open spec fn is_linked(major: u8) -> bool {
    major > BASELINE_JAVA_MAJOR
}

/// The kind of image the vendor is asked for.
pub open spec fn image_kind(major: u8) -> Seq<char> {
    if is_linked(major) {
        "jdk"@
    } else {
        "jre"@
    }
}

/// The address of the archive, with the platform named in the vendor's
/// convention.
pub open spec fn java_url_spec(major: u8, platform: Platform) -> Seq<char> {
    "https://api.adoptium.net/v3/binary/latest/"@ + decimal(major as nat) + "/ga/"@ + os_java_name(
        platform.os,
    ) + "/"@ + arch_java_name(platform.arch) + "/"@ + image_kind(major)
        + "/hotspot/normal/eclipse"@
}

/// The format of the archive: zip on Windows, gzip-compressed tar
/// elsewhere.
pub open spec fn archive_format_spec(os: Os) -> ArchiveFormat {
    match os {
        Os::Windows => ArchiveFormat::Zip,
        _ => ArchiveFormat::TarGz,
    }
}

/// Where the kit's link tool lies.
pub open spec fn link_tool_spec(os: Os) -> Seq<char> {
    match os {
        Os::MacOs => "Contents/Home/bin/jlink"@,
        _ => "bin/jlink"@,
    }
}

/// The arguments of the link tool: every module, written to `output`,
/// without debug information, manual pages or header files, at the highest
/// compression.
pub open spec fn link_arguments_spec(output: Seq<char>) -> Seq<Seq<char>> {
    seq![
        "--add-modules"@,
        "ALL-MODULE-PATH"@,
        "--output"@,
        output,
        "--strip-debug"@,
        "--no-man-pages"@,
        "--no-header-files"@,
        "--compress=2"@,
    ]
}

/// What is done with the unpacked archive. A kit is linked into the runtime
/// directory. A ready runtime is copied entry by entry on Windows; on macOS
/// its `Contents/Home` becomes the runtime directory and `libjli.dylib`
/// joins the runtime's `bin`; on Linux the unpacked directory is moved.
pub open spec fn install_steps_spec(target: Seq<char>, major: u8, os: Os) -> Seq<InstallStepView> {
    if is_linked(major) {
        seq![InstallStepView::Link { tool: link_tool_spec(os), args: link_arguments_spec(target) }]
    } else {
        match os {
            Os::Windows => seq![
                InstallStepView::CreateDir { path: target },
                InstallStepView::CopyTree { to: target },
            ],
            Os::MacOs => seq![
                InstallStepView::Move { from: "Contents/Home"@, to: target },
                InstallStepView::Move {
                    from: "Contents/MacOS/libjli.dylib"@,
                    to: target + "bin/libjli.dylib"@,
                },
            ],
            Os::Linux => seq![InstallStepView::Move { from: Seq::empty(), to: target }],
        }
    }
}

/// Everything that providing the runtime of a major version on a platform
/// takes, below an installation root.
pub open spec fn runtime_plan_spec(root: Seq<char>, major: u8, platform: Platform)
    -> RuntimePlanView {
    RuntimePlanView {
        url: java_url_spec(major, platform),
        format: archive_format_spec(platform.os),
        runtime_root: runtime_root_spec(root),
        steps: install_steps_spec(runtime_dir_spec(root, major, platform), major, platform.os),
    }
}

/// The address of the archive of a major version for a platform.
pub fn java_url(version: u8, platform: Platform) -> (url: String)
    ensures
        url@ == java_url_spec(version, platform),
{
    let mut url = String::from_str("https://api.adoptium.net/v3/binary/latest/");
    url.append(decimal_string(version).as_str());
    url.append("/ga/");
    url.append(get_os_java(platform));
    url.append("/");
    url.append(get_arch_java(platform));
    url.append("/");
    if version <= BASELINE_JAVA_MAJOR {
        url.append("jre");
    } else {
        url.append("jdk");
    }
    url.append("/hotspot/normal/eclipse");
    url
}

/// The format of the archive for an operating system.
pub fn archive_format(platform: Platform) -> (format: ArchiveFormat)
    ensures
        format == archive_format_spec(platform.os),
{
    match platform.os {
        Os::Windows => ArchiveFormat::Zip,
        _ => ArchiveFormat::TarGz,
    }
}

/// The arguments of the link tool.
fn link_arguments(output: &str) -> (args: Vec<String>)
    ensures
        views(args@) == link_arguments_spec(output@),
{
    let mut args: Vec<String> = Vec::new();
    args.push(String::from_str("--add-modules"));
    args.push(String::from_str("ALL-MODULE-PATH"));
    args.push(String::from_str("--output"));
    args.push(String::from_str(output));
    args.push(String::from_str("--strip-debug"));
    args.push(String::from_str("--no-man-pages"));
    args.push(String::from_str("--no-header-files"));
    args.push(String::from_str("--compress=2"));
    args
}

/// What is done with the unpacked archive to make the runtime directory
/// `target`.
fn install_steps(target: &str, version: u8, platform: Platform) -> (steps: Vec<InstallStep>)
    ensures
        views(steps@) == install_steps_spec(target@, version, platform.os),
{
    let mut steps: Vec<InstallStep> = Vec::new();
    if version <= BASELINE_JAVA_MAJOR {
        match platform.os {
            Os::Windows => {
                steps.push(InstallStep::CreateDir { path: String::from_str(target) });
                steps.push(InstallStep::CopyTree { to: String::from_str(target) });
            },
            Os::MacOs => {
                steps.push(
                    InstallStep::Move {
                        from: String::from_str("Contents/Home"),
                        to: String::from_str(target),
                    },
                );
                let mut library = String::from_str(target);
                library.append("bin/libjli.dylib");
                steps.push(
                    InstallStep::Move {
                        from: String::from_str("Contents/MacOS/libjli.dylib"),
                        to: library,
                    },
                );
            },
            Os::Linux => {
                let whole = String::new();
                steps.push(InstallStep::Move { from: whole, to: String::from_str(target) });
            },
        }
    } else {
        let tool = match platform.os {
            Os::MacOs => "Contents/Home/bin/jlink",
            _ => "bin/jlink",
        };
        steps.push(
            InstallStep::Link { tool: String::from_str(tool), args: link_arguments(target) },
        );
    }
    steps
}

/// Plans providing the runtime of a major version below `save_path`.
pub fn plan_runtime(save_path: &str, version: u8, platform: Platform) -> (plan: RuntimePlan)
    ensures
        plan@ == runtime_plan_spec(save_path@, version, platform),
{
    let target = runtime_dir(save_path, version, platform);
    RuntimePlan {
        url: java_url(version, platform),
        format: archive_format(platform),
        runtime_root: runtime_root(save_path),
        steps: install_steps(target.as_str(), version, platform),
    }
}

/// Plans providing the runtime unless its directory is already there.
pub fn provision_runtime(save_path: &str, version: u8, platform: Platform, present: bool) -> (plan:
    Option<RuntimePlan>)
    ensures
        match plan {
            Some(p) => !present && p@ == runtime_plan_spec(save_path@, version, platform),
            None => present,
        },
{
    if present {
        None
    } else {
        Some(plan_runtime(save_path, version, platform))
    }
}

} // verus!
