//! Composing the invocation of a version: the class path, the arguments
//! in their structured or legacy form, and the resolution of their
//! placeholders.

use vstd::prelude::*;
use vstd::string::*;
use crate::env::{resolved, undefined_keys, Environment};
use crate::layout::{
    assets_root, assets_root_spec, game_assets, game_assets_spec, java_executable,
    java_executable_spec, version_jar_path, version_jar_path_spec,
};
use crate::libraries::{
    build_classpath, classpath_spec, join, library_plans, plan_libraries, LayoutError,
};
use crate::platform::{Arch, Os, Platform};
use crate::rules::{rules_satisfied, spec_rules_satisfied};
use crate::text::{concat_strs, to_chars, views};
use crate::version::{
    java_major, Argument, ArgumentView, SingleOrVec, SingleOrVecView, VersionSpec,
    VersionSpecView,
};

verus! {

/// Why no invocation can be composed.
#[derive(Clone, Copy, Debug, PartialEq, Eq, Structural)]
pub enum LaunchError {
    /// The libraries of the version are not laid out as they must be.
    Layout(LayoutError),
    /// The version has neither structured arguments nor a legacy argument
    /// string.
    MissingArguments,
}

/// The arguments of an invocation, and the keys of the placeholders in them
/// that had no binding.
#[derive(Debug)]
pub struct LaunchArguments {
    pub args: Vec<String>,
    pub undefined: Vec<String>,
}

/// An invocation: the executable, its arguments, and the keys of the
/// placeholders that had no binding.
#[derive(Debug)]
pub struct LaunchCommand {
    pub program: String,
    pub args: Vec<String>,
    pub undefined: Vec<String>,
}

/// The mathematical value of a [`LaunchArguments`].
pub struct LaunchArgumentsView {
    pub args: Seq<Seq<char>>,
    pub undefined: Seq<Seq<char>>,
}

impl View for LaunchArguments {
    type V = LaunchArgumentsView;

    open spec fn view(&self) -> LaunchArgumentsView {
        LaunchArgumentsView { args: views(self.args@), undefined: views(self.undefined@) }
    }
}

/// The mathematical value of a [`LaunchCommand`].
pub struct LaunchCommandView {
    pub program: Seq<char>,
    pub args: Seq<Seq<char>>,
    pub undefined: Seq<Seq<char>>,
}

impl View for LaunchCommand {
    type V = LaunchCommandView;

    open spec fn view(&self) -> LaunchCommandView {
        LaunchCommandView {
            program: self.program@,
            args: views(self.args@),
            undefined: views(self.undefined@),
        }
    }
}

/// The pieces of `text` between the occurrences of `separator`. There is
/// one piece more than there are separators, and a piece may be empty.
pub open spec fn split(text: Seq<char>, separator: char) -> Seq<Seq<char>>
    decreases text.len(),
{
    if text.len() == 0 {
        seq![Seq::empty()]
    } else {
        let earlier = split(text.drop_last(), separator);
        if text.last() == separator {
            earlier.push(Seq::empty())
        } else {
            earlier.drop_last().push(earlier.last().push(text.last()))
        }
    }
}

/// The pieces of a split hold no separator, and joined by the separator
/// they give the text back.
pub proof fn lemma_split_rejoins(text: Seq<char>, separator: char)
    ensures
        split(text, separator).len() >= 1,
        forall|i: int, k: int|
            0 <= i < split(text, separator).len() && 0 <= k < split(text, separator)[i].len()
                ==> #[trigger] split(text, separator)[i][k] != separator,
        join(split(text, separator), seq![separator]) == text,
    decreases text.len(),
{
    if text.len() > 0 {
        let earlier = split(text.drop_last(), separator);
        lemma_split_rejoins(text.drop_last(), separator);
        let x = text.last();
        if x == separator {
            let pieces = earlier.push(Seq::<char>::empty());
            assert(pieces.drop_last() =~= earlier);
        } else {
            let grown = earlier.last().push(x);
            let pieces = earlier.drop_last().push(grown);
            assert(pieces.drop_last() =~= earlier.drop_last());
            assert(join(pieces, seq![separator]) =~= join(earlier, seq![separator]).push(x));
        }
    }
}

/// What one entry of a structured argument list contributes: a literal
/// itself; a gated entry its value, or all the values of its list, where
/// its rules are satisfied, and nothing where they are not.
pub open spec fn argument_values(argument: ArgumentView, platform: Platform) -> Seq<Seq<char>> {
    match argument {
        ArgumentView::Static(value) => seq![value],
        ArgumentView::Dynamic(gated) => if rules_satisfied(gated.rules, platform) {
            match gated.value {
                SingleOrVecView::Single(value) => seq![value],
                SingleOrVecView::Vector(values) => values,
            }
        } else {
            Seq::empty()
        },
    }
}

/// What a structured argument list contributes, entry by entry.
pub open spec fn arguments_spec(arguments: Seq<ArgumentView>, platform: Platform) -> Seq<
    Seq<char>,
>
    decreases arguments.len(),
{
    if arguments.len() == 0 {
        Seq::empty()
    } else {
        arguments_spec(arguments.drop_last(), platform) + argument_values(
            arguments.last(),
            platform,
        )
    }
}

/// The JVM flags of a version without structured arguments that depend on
/// the platform.
pub open spec fn legacy_platform_flags(platform: Platform) -> Seq<Seq<char>> {
    optional_flag(
        platform.os == Os::Windows,
        "-XX:HeapDumpPath=MojangTricksIntelDriversForPerformance_javaw.exe_minecraft.exe.heapdump"@,
    ) + optional_flag(platform.os == Os::MacOs, "-XstartOnFirstThread"@) + optional_flag(
        platform.arch == Arch::X86,
        "-Xss1M"@,
    )
}

/// A flag that is passed only under a condition.
pub open spec fn optional_flag(condition: bool, flag: Seq<char>) -> Seq<Seq<char>> {
    if condition {
        seq![flag]
    } else {
        Seq::empty()
    }
}

/// The arguments of a version without structured arguments, before the
/// game's own: the platform's flags, the fixed flags, the class path and
/// the main class.
pub open spec fn legacy_jvm_arguments(jar: Seq<char>, main_class: Seq<char>, platform: Platform)
    -> Seq<Seq<char>> {
    legacy_platform_flags(platform) + seq![
        "-Djava.library.path=${natives_directory}"@,
        "-Dminecraft.launcher.brand=${launcher_name}"@,
        "-Dminecraft.launcher.version=${launcher_version}"@,
        "-Dminecraft.client.jar="@ + jar,
        "-cp"@,
        "${classpath}"@,
        main_class,
    ]
}

/// The arguments of a version with their placeholders still in them.
/// Structured arguments, where the version has them, give the JVM's
/// arguments, the main class and the game's arguments. Otherwise the legacy
/// argument string gives the game's arguments, split at each space. A
/// version with neither has no arguments.
pub open spec fn argument_templates(jar: Seq<char>, version: VersionSpecView, platform: Platform)
    -> Option<Seq<Seq<char>>> {
    match version.arguments {
        Some(arguments) => Some(
            arguments_spec(arguments.jvm, platform) + seq![version.main_class] + arguments_spec(
                arguments.game,
                platform,
            ),
        ),
        None => match version.minecraft_arguments {
            Some(legacy) => Some(
                legacy_jvm_arguments(jar, version.main_class, platform) + split(legacy, ' '),
            ),
            None => None,
        },
    }
}

/// Each template resolved.
pub open spec fn resolve_all(templates: Seq<Seq<char>>, m: Map<Seq<char>, Seq<char>>) -> Seq<
    Seq<char>,
> {
    templates.map_values(|t: Seq<char>| resolved(t, m))
}

/// The keys without a binding of all the templates, template by template.
pub open spec fn undefined_in_all(templates: Seq<Seq<char>>, m: Map<Seq<char>, Seq<char>>) -> Seq<
    Seq<char>,
>
    decreases templates.len(),
{
    if templates.len() == 0 {
        Seq::empty()
    } else {
        undefined_in_all(templates.drop_last(), m) + undefined_keys(templates.last(), m)
    }
}

/// The bindings once the class path and the natives directory are known.
pub open spec fn launch_bindings(
    m: Map<Seq<char>, Seq<char>>,
    classpath: Seq<char>,
    natives_dir: Seq<char>,
) -> Map<Seq<char>, Seq<char>> {
    m.insert("classpath"@, classpath).insert("natives_directory"@, natives_dir)
}

/// Splits `text` at each occurrence of `separator`.
pub fn split_at(text: &str, separator: char) -> (pieces: Vec<String>)
    ensures
        views(pieces@) == split(text@, separator),
{
    let chars = to_chars(text);
    let mut pieces: Vec<String> = Vec::new();
    let mut current = String::new();
    let mut i: usize = 0;
    while i < chars.len()
        invariant
            i <= chars.len(),
            split(chars@.take(i as int), separator) == views(pieces@).push(current@),
        decreases chars.len() - i,
    {
        let c = chars[i];
        proof {
            assert(chars@.take(i + 1).drop_last() =~= chars@.take(i as int));
        }
        if c == separator {
            pieces.push(current);
            current = String::new();
        } else {
            current.push(c);
        }
        i += 1;
    }
    assert(chars@.take(i as int) =~= chars@);
    pieces.push(current);
    pieces
}

/// Appends a copy of each of `values` to `out`.
fn push_all(out: &mut Vec<String>, values: &Vec<String>)
    ensures
        views(final(out)@) == views(old(out)@) + views(values@),
{
    let ghost start = views(out@);
    let mut i: usize = 0;
    while i < values.len()
        invariant
            i <= values.len(),
            views(out@) == start + views(values@.take(i as int)),
        decreases values.len() - i,
    {
        let ghost earlier = out@;
        out.push(values[i].clone());
        assert(views(out@) =~= views(earlier).push(values@[i as int]@));
        i += 1;
    }
}

/// Appends what one entry of a structured argument list contributes.
fn push_argument(out: &mut Vec<String>, argument: &Argument, platform: Platform)
    ensures
        views(final(out)@) == views(old(out)@) + argument_values(argument@, platform),
{
    match argument {
        Argument::Static(value) => {
            out.push(value.clone());
        },
        Argument::Dynamic(gated) => {
            if spec_rules_satisfied(&gated.rules, platform) {
                match &gated.value {
                    SingleOrVec::Single(value) => {
                        out.push(value.clone());
                    },
                    SingleOrVec::Vector(values) => {
                        push_all(out, values);
                    },
                }
            }
        },
    }
}

/// Appends what a structured argument list contributes.
fn push_arguments(out: &mut Vec<String>, arguments: &Vec<Argument>, platform: Platform)
    ensures
        views(final(out)@) == views(old(out)@) + arguments_spec(views(arguments@), platform),
{
    let ghost start = views(out@);
    let ghost all = views(arguments@);
    let mut i: usize = 0;
    while i < arguments.len()
        invariant
            i <= arguments.len(),
            all == views(arguments@),
            views(out@) == start + arguments_spec(all.take(i as int), platform),
        decreases arguments.len() - i,
    {
        proof {
            assert(all.take(i + 1).drop_last() =~= all.take(i as int));
        }
        push_argument(out, &arguments[i], platform);
        i += 1;
    }
    assert(all.take(i as int) =~= all);
}

/// Appends one argument.
fn push_text(out: &mut Vec<String>, text: &str)
    ensures
        views(final(out)@) == views(old(out)@) + seq![text@],
{
    out.push(String::from_str(text));
}

/// The arguments of a version without structured arguments, before the
/// game's own.
fn legacy_jvm(jar: &str, main_class: &str, platform: Platform) -> (out: Vec<String>)
    ensures
        views(out@) == legacy_jvm_arguments(jar@, main_class@, platform),
{
    let mut out: Vec<String> = Vec::new();
    match platform.os {
        Os::Windows => {
            push_text(
                &mut out,
                "-XX:HeapDumpPath=MojangTricksIntelDriversForPerformance_javaw.exe_minecraft.exe.heapdump",
            );
        },
        Os::MacOs => {
            push_text(&mut out, "-XstartOnFirstThread");
        },
        Os::Linux => {},
    }
    match platform.arch {
        Arch::X86 => {
            push_text(&mut out, "-Xss1M");
        },
        Arch::X64 => {},
    }
    push_text(&mut out, "-Djava.library.path=${natives_directory}");
    push_text(&mut out, "-Dminecraft.launcher.brand=${launcher_name}");
    push_text(&mut out, "-Dminecraft.launcher.version=${launcher_version}");
    let client_jar = concat_strs("-Dminecraft.client.jar=", jar);
    push_text(&mut out, client_jar.as_str());
    push_text(&mut out, "-cp");
    push_text(&mut out, "${classpath}");
    push_text(&mut out, main_class);
    out
}

/// The arguments of a version with their placeholders still in them, where
/// the version has any.
pub fn collect_argument_templates(jar: &str, version: &VersionSpec, platform: Platform) -> (out:
    Option<Vec<String>>)
    ensures
        match out {
            Some(templates) => argument_templates(jar@, version@, platform) == Some(
                views(templates@),
            ),
            None => argument_templates(jar@, version@, platform) is None,
        },
{
    match &version.arguments {
        Some(arguments) => {
            let mut out: Vec<String> = Vec::new();
            push_arguments(&mut out, &arguments.jvm, platform);
            push_text(&mut out, version.main_class.as_str());
            push_arguments(&mut out, &arguments.game, platform);
            Some(out)
        },
        None => match &version.minecraft_arguments {
            Some(legacy) => {
                let mut out = legacy_jvm(jar, version.main_class.as_str(), platform);
                let game = split_at(legacy.as_str(), ' ');
                push_all(&mut out, &game);
                Some(out)
            },
            None => None,
        },
    }
}

/// Resolves every template against the store and gathers the keys that had
/// no binding.
pub fn resolve_arguments(templates: &Vec<String>, env: &Environment) -> (r: LaunchArguments)
    ensures
        r@ == (LaunchArgumentsView {
            args: resolve_all(views(templates@), env@),
            undefined: undefined_in_all(views(templates@), env@),
        }),
{
    let mut args: Vec<String> = Vec::new();
    let mut undefined: Vec<String> = Vec::new();
    let mut i: usize = 0;
    while i < templates.len()
        invariant
            i <= templates.len(),
            views(args@) == resolve_all(views(templates@).take(i as int), env@),
            views(undefined@) == undefined_in_all(views(templates@).take(i as int), env@),
        decreases templates.len() - i,
    {
        proof {
            assert(views(templates@).take(i + 1).drop_last() =~= views(templates@).take(
                i as int,
            ));
        }
        let resolution = env.resolve_reporting(templates[i].as_str());
        args.push(resolution.text);
        push_all(&mut undefined, &resolution.undefined);
        assert(resolve_all(views(templates@).take(i + 1), env@) =~= resolve_all(
            views(templates@).take(i as int),
            env@,
        ).push(resolved(templates@[i as int]@, env@)));
        i += 1;
    }
    assert(views(templates@).take(i as int) =~= views(templates@));
    LaunchArguments { args, undefined }
}

/// What composing the arguments of a version yields.
pub struct Composition {
    /// The arguments, resolved.
    pub args: Seq<Seq<char>>,
    /// The keys of the placeholders that had no binding.
    pub undefined: Seq<Seq<char>>,
    /// The bindings the arguments were resolved against.
    pub bindings: Map<Seq<char>, Seq<char>>,
}

/// The arguments of a version under an installation root. The class path
/// is made of the libraries that apply on the platform and of the client
/// jar; it and the natives directory are bound before any template is
/// resolved. A fault in the libraries is reported before a lack of
/// arguments.
pub open spec fn composed(
    root: Seq<char>,
    version: VersionSpecView,
    m: Map<Seq<char>, Seq<char>>,
    natives_dir: Seq<char>,
    platform: Platform,
) -> Result<Composition, LaunchError> {
    let jar = version_jar_path_spec(root, version.id);
    match library_plans(root, version.libraries, platform) {
        Err(e) => Err(LaunchError::Layout(e)),
        Ok(plans) => match argument_templates(jar, version, platform) {
            None => Err(LaunchError::MissingArguments),
            Some(templates) => {
                let bindings = launch_bindings(
                    m,
                    classpath_spec(plans, jar, platform.os),
                    natives_dir,
                );
                Ok(
                    Composition {
                        args: resolve_all(templates, bindings),
                        undefined: undefined_in_all(templates, bindings),
                        bindings,
                    },
                )
            },
        },
    }
}

/// Composes the arguments of a version: binds `classpath` and
/// `natives_directory` in the store, then resolves every argument against
/// it. Where no arguments can be composed, the store is left as it was.
pub fn construct_launch_args(
    minecraft_path: &str,
    version: &VersionSpec,
    env: &mut Environment,
    natives_dir: &str,
    platform: Platform,
) -> (r: Result<LaunchArguments, LaunchError>)
    ensures
        match composed(minecraft_path@, version@, old(env)@, natives_dir@, platform) {
            Ok(c) => r matches Ok(a) && a@ == (LaunchArgumentsView {
                args: c.args,
                undefined: c.undefined,
            }) && final(env)@ == c.bindings,
            Err(e) => r matches Err(x) && x == e && final(env)@ == old(env)@,
        },
{
    let plans = match plan_libraries(minecraft_path, &version.libraries, platform) {
        Ok(plans) => plans,
        Err(e) => {
            return Err(LaunchError::Layout(e));
        },
    };
    let jar_path = version_jar_path(minecraft_path, version.id.as_str());
    let templates = match collect_argument_templates(jar_path.as_str(), version, platform) {
        Some(templates) => templates,
        None => {
            return Err(LaunchError::MissingArguments);
        },
    };
    let classpath = build_classpath(&plans, jar_path.as_str(), platform);
    env.set("classpath", classpath.as_str());
    env.set("natives_directory", natives_dir);
    Ok(resolve_arguments(&templates, env))
}

/// The bindings a launcher starts from: where the game lives, what the
/// launcher is, and an offline user without a name.
pub open spec fn launcher_bindings(game_directory: Seq<char>, launcher_version: Seq<char>) -> Map<
    Seq<char>,
    Seq<char>,
> {
    Map::<Seq<char>, Seq<char>>::empty().insert("game_directory"@, game_directory).insert(
        "launcher_name"@,
        "Minelaunch"@,
    ).insert("launcher_version"@, launcher_version).insert("auth_player_name"@, ""@).insert(
        "auth_uuid"@,
        ""@,
    ).insert("auth_access_token"@, ""@).insert("user_type"@, "offline"@)
}

/// The store a launcher starts from.
pub fn launcher_environment(game_directory: &str, launcher_version: &str) -> (env: Environment)
    ensures
        env@ == launcher_bindings(game_directory@, launcher_version@),
{
    let mut env = Environment::new();
    env.set("game_directory", game_directory);
    env.set("launcher_name", "Minelaunch");
    env.set("launcher_version", launcher_version);
    env.set("auth_player_name", "");
    env.set("auth_uuid", "");
    env.set("auth_access_token", "");
    env.set("user_type", "offline");
    env
}

/// The bindings once the facts of a version are known.
pub open spec fn version_bindings(
    m: Map<Seq<char>, Seq<char>>,
    root: Seq<char>,
    version: VersionSpecView,
) -> Map<Seq<char>, Seq<char>> {
    m.insert("version_name"@, version.id).insert("version_type"@, version.version_type).insert(
        "assets_root"@,
        assets_root_spec(root),
    ).insert("assets_index_name"@, version.assets).insert(
        "game_assets"@,
        game_assets_spec(root, version.assets),
    )
}

/// Binds the facts of a version in the store: its name and type, the
/// assets root, the name of its asset index and its legacy assets
/// directory.
pub fn bind_version(env: &mut Environment, minecraft_path: &str, version: &VersionSpec)
    ensures
        final(env)@ == version_bindings(old(env)@, minecraft_path@, version@),
{
    env.set("version_name", version.id.as_str());
    env.set("version_type", version.version_type.as_str());
    let root = assets_root(minecraft_path);
    env.set("assets_root", root.as_str());
    env.set("assets_index_name", version.assets.as_str());
    let legacy = game_assets(minecraft_path, version.assets.as_str());
    env.set("game_assets", legacy.as_str());
}

/// What launching a version runs: the `java` executable of the runtime the
/// version needs, with the version's arguments, composed once the facts of
/// the version are bound.
pub fn launch_minecraft_version(
    minecraft_path: &str,
    version: &VersionSpec,
    env: Environment,
    natives_dir: &str,
    platform: Platform,
) -> (r: Result<LaunchCommand, LaunchError>)
    ensures
        match composed(
            minecraft_path@,
            version@,
            version_bindings(env@, minecraft_path@, version@),
            natives_dir@,
            platform,
        ) {
            Ok(c) => r matches Ok(command) && command@ == (LaunchCommandView {
                program: java_executable_spec(minecraft_path@, java_major(version@), platform),
                args: c.args,
                undefined: c.undefined,
            }),
            Err(e) => r matches Err(x) && x == e,
        },
{
    let mut env = env;
    bind_version(&mut env, minecraft_path, version);
    match construct_launch_args(minecraft_path, version, &mut env, natives_dir, platform) {
        Ok(arguments) => Ok(
            LaunchCommand {
                program: java_executable(minecraft_path, version.java_major(), platform),
                args: arguments.args,
                undefined: arguments.undefined,
            },
        ),
        Err(e) => Err(e),
    }
}

} // verus!
