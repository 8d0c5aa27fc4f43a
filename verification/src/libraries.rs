//! The libraries of a version: which of them apply on a platform, which
//! files they need, and the class path they make up.

use vstd::prelude::*;
use vstd::string::*;
use crate::fetch::{FileCheck, FileCheckView};
use crate::layout::{library_path, library_path_spec};
use crate::platform::{get_path_separator, path_separator, Os, Platform};
use crate::rules::{optional_rules_pass, optional_rules_satisfied};
use crate::text::{concat_strs, option_view, str_eq, views};
use crate::version::{
    Classifier, ClassifierView, Download, DownloadView, Library, LibraryNatives,
    LibraryNativesView, LibraryView,
};

verus! {

/// What is wrong with a version document's libraries.
#[derive(Clone, Copy, Debug, PartialEq, Eq, Structural)]
pub enum LayoutError {
    /// A library's artifact does not say where it goes.
    MissingArtifactPath,
    /// A library names a native classifier that it does not offer.
    MissingClassifier,
    /// A library's native classifier does not say where it goes.
    MissingClassifierPath,
}

/// The files of one library that applies on the platform.
#[derive(Debug)]
pub struct LibraryPlan {
    pub name: String,
    /// The general artifact, which goes on the class path.
    pub artifact: Option<FileCheck>,
    /// The native bundle for the platform's operating system.
    pub native: Option<FileCheck>,
}

/// The mathematical value of a [`LibraryPlan`].
pub struct LibraryPlanView {
    pub name: Seq<char>,
    pub artifact: Option<FileCheckView>,
    pub native: Option<FileCheckView>,
}

impl View for LibraryPlan {
    type V = LibraryPlanView;

    open spec fn view(&self) -> LibraryPlanView {
        LibraryPlanView {
            name: self.name@,
            artifact: option_view(self.artifact),
            native: option_view(self.native),
        }
    }
}

/// The name of the classifier that holds the native bundle for an
/// operating system, where the library declares one.
pub open spec fn native_classifier_name(natives: Option<LibraryNativesView>, os: Os) -> Option<
    Seq<char>,
> {
    match natives {
        None => None,
        Some(n) => match os {
            Os::Windows => n.windows,
            Os::MacOs => n.osx,
            Os::Linux => n.linux,
        },
    }
}

/// The first classifier of the given name.
pub open spec fn find_classifier(classifiers: Seq<ClassifierView>, name: Seq<char>) -> Option<
    ClassifierView,
>
    decreases classifiers.len(),
{
    if classifiers.len() == 0 {
        None
    } else if classifiers.first().name == name {
        Some(classifiers.first())
    } else {
        find_classifier(classifiers.drop_first(), name)
    }
}

/// The check of a library download under the libraries root, where the
/// download says where it goes.
pub open spec fn download_check(root: Seq<char>, download: DownloadView, label: Seq<char>)
    -> Option<FileCheckView> {
    match download.path {
        None => None,
        Some(relative) => Some(
            FileCheckView {
                path: library_path_spec(root, relative),
                sha1: download.sha1,
                size: download.size,
                url: download.url,
                label,
            },
        ),
    }
}

/// The check of a library's general artifact, if it has one.
pub open spec fn artifact_check(root: Seq<char>, library: LibraryView) -> Result<
    Option<FileCheckView>,
    LayoutError,
> {
    match library.downloads.artifact {
        None => Ok(None),
        Some(artifact) => match download_check(root, artifact, "Library "@ + library.name) {
            None => Err(LayoutError::MissingArtifactPath),
            Some(check) => Ok(Some(check)),
        },
    }
}

/// The check of a library's native bundle for the platform, if it
/// declares one.
pub open spec fn native_check(root: Seq<char>, library: LibraryView, platform: Platform) -> Result<
    Option<FileCheckView>,
    LayoutError,
> {
    match native_classifier_name(library.natives, platform.os) {
        None => Ok(None),
        Some(name) => match library.downloads.classifiers {
            None => Err(LayoutError::MissingClassifier),
            Some(classifiers) => match find_classifier(classifiers, name) {
                None => Err(LayoutError::MissingClassifier),
                Some(classifier) => match download_check(
                    root,
                    classifier.download,
                    "Native for "@ + library.name,
                ) {
                    None => Err(LayoutError::MissingClassifierPath),
                    Some(check) => Ok(Some(check)),
                },
            },
        },
    }
}

/// The files of one library. The artifact is looked at before the native
/// bundle, so its error comes first.
pub open spec fn library_plan(root: Seq<char>, library: LibraryView, platform: Platform) -> Result<
    LibraryPlanView,
    LayoutError,
> {
    match artifact_check(root, library) {
        Err(e) => Err(e),
        Ok(artifact) => match native_check(root, library, platform) {
            Err(e) => Err(e),
            Ok(native) => Ok(LibraryPlanView { name: library.name, artifact, native }),
        },
    }
}

/// The plans of the libraries whose rules are satisfied, in the order of
/// the document; or the error of the first such library that has one.
pub open spec fn library_plans(root: Seq<char>, libraries: Seq<LibraryView>, platform: Platform)
    -> Result<Seq<LibraryPlanView>, LayoutError>
    decreases libraries.len(),
{
    if libraries.len() == 0 {
        Ok(Seq::empty())
    } else {
        match library_plans(root, libraries.drop_last(), platform) {
            Err(e) => Err(e),
            Ok(plans) => if !optional_rules_satisfied(libraries.last().rules, platform) {
                Ok(plans)
            } else {
                match library_plan(root, libraries.last(), platform) {
                    Err(e) => Err(e),
                    Ok(plan) => Ok(plans.push(plan)),
                }
            },
        }
    }
}

/// Every file that the plans ask for: for each library its artifact, then
/// its native bundle.
pub open spec fn library_files_spec(plans: Seq<LibraryPlanView>) -> Seq<FileCheckView>
    decreases plans.len(),
{
    if plans.len() == 0 {
        Seq::empty()
    } else {
        library_files_spec(plans.drop_last()) + optional_item(plans.last().artifact)
            + optional_item(plans.last().native)
    }
}

/// The sequence of an optional item: empty, or the item alone.
pub open spec fn optional_item<T>(item: Option<T>) -> Seq<T> {
    match item {
        Some(x) => seq![x],
        None => Seq::empty(),
    }
}

/// The paths of the artifacts of the plans, in order.
pub open spec fn artifact_paths(plans: Seq<LibraryPlanView>) -> Seq<Seq<char>>
    decreases plans.len(),
{
    if plans.len() == 0 {
        Seq::empty()
    } else {
        let earlier = artifact_paths(plans.drop_last());
        match plans.last().artifact {
            Some(check) => earlier.push(check.path),
            None => earlier,
        }
    }
}

/// The paths of the native bundles of the plans, in order.
pub open spec fn native_paths(plans: Seq<LibraryPlanView>) -> Seq<Seq<char>>
    decreases plans.len(),
{
    if plans.len() == 0 {
        Seq::empty()
    } else {
        let earlier = native_paths(plans.drop_last());
        match plans.last().native {
            Some(check) => earlier.push(check.path),
            None => earlier,
        }
    }
}

/// The parts with `separator` between each two neighbours.
pub open spec fn join(parts: Seq<Seq<char>>, separator: Seq<char>) -> Seq<char>
    decreases parts.len(),
{
    if parts.len() == 0 {
        Seq::empty()
    } else if parts.len() == 1 {
        parts[0]
    } else {
        join(parts.drop_last(), separator) + separator + parts.last()
    }
}

/// The segments of the class path: the artifacts of the libraries, then the
/// client jar.
pub open spec fn classpath_segments(plans: Seq<LibraryPlanView>, jar: Seq<char>) -> Seq<
    Seq<char>,
> {
    artifact_paths(plans).push(jar)
}

/// The class path: its segments joined by the platform's separator.
pub open spec fn classpath_spec(plans: Seq<LibraryPlanView>, jar: Seq<char>, os: Os) -> Seq<
    char,
> {
    join(classpath_segments(plans, jar), path_separator(os))
}

/// The first classifier of the given name.
fn lookup_classifier<'a>(classifiers: &'a Vec<Classifier>, name: &str) -> (found: Option<
    &'a Classifier,
>)
    ensures
        match found {
            Some(c) => find_classifier(views(classifiers@), name@) == Some(c@),
            None => find_classifier(views(classifiers@), name@) is None,
        },
{
    let mut i: usize = 0;
    assert(views(classifiers@).skip(0) =~= views(classifiers@));
    while i < classifiers.len()
        invariant
            i <= classifiers.len(),
            find_classifier(views(classifiers@), name@) == find_classifier(
                views(classifiers@).skip(i as int),
                name@,
            ),
        decreases classifiers.len() - i,
    {
        if str_eq(classifiers[i].name.as_str(), name) {
            return Some(&classifiers[i]);
        }
        assert(views(classifiers@).skip(i as int).drop_first() =~= views(classifiers@).skip(
            i + 1,
        ));
        i += 1;
    }
    None
}

/// The check of a library download under the libraries root.
fn check_download(root: &str, download: &Download, label: String) -> (check: Option<FileCheck>)
    ensures
        match check {
            Some(c) => download_check(root@, download@, label@) == Some(c@),
            None => download_check(root@, download@, label@) is None,
        },
{
    match &download.path {
        None => None,
        Some(relative) => Some(
            FileCheck {
                path: library_path(root, relative.as_str()),
                sha1: download.sha1.clone(),
                size: download.size,
                url: download.url.clone(),
                label,
            },
        ),
    }
}

/// The name of the classifier that holds the native bundle for the
/// platform, where the library declares one.
fn native_classifier<'a>(natives: &'a Option<LibraryNatives>, platform: Platform) -> (name: Option<
    &'a String,
>)
    ensures
        match name {
            Some(n) => native_classifier_name(option_view(*natives), platform.os) == Some(n@),
            None => native_classifier_name(option_view(*natives), platform.os) is None,
        },
{
    match natives {
        None => None,
        Some(n) => {
            let declared = match platform.os {
                Os::Windows => &n.windows,
                Os::MacOs => &n.osx,
                Os::Linux => &n.linux,
            };
            match declared {
                Some(name) => Some(name),
                None => None,
            }
        },
    }
}

/// Plans the files of one library: its artifact, and its native bundle for
/// the platform.
pub fn plan_library(root: &str, library: &Library, platform: Platform) -> (plan: Result<
    LibraryPlan,
    LayoutError,
>)
    ensures
        match plan {
            Ok(p) => library_plan(root@, library@, platform) == Ok::<LibraryPlanView, LayoutError>(
                p@,
            ),
            Err(e) => library_plan(root@, library@, platform) == Err::<
                LibraryPlanView,
                LayoutError,
            >(e),
        },
{
    let artifact = match &library.downloads.artifact {
        None => None,
        Some(download) => {
            let label = concat_strs("Library ", library.name.as_str());
            match check_download(root, download, label) {
                None => {
                    return Err(LayoutError::MissingArtifactPath);
                },
                Some(check) => Some(check),
            }
        },
    };
    let native = match native_classifier(&library.natives, platform) {
        None => None,
        Some(name) => {
            let classifiers = match &library.downloads.classifiers {
                None => {
                    return Err(LayoutError::MissingClassifier);
                },
                Some(list) => list,
            };
            let classifier = match lookup_classifier(classifiers, name.as_str()) {
                None => {
                    return Err(LayoutError::MissingClassifier);
                },
                Some(c) => c,
            };
            let label = concat_strs("Native for ", library.name.as_str());
            match check_download(root, &classifier.download, label) {
                None => {
                    return Err(LayoutError::MissingClassifierPath);
                },
                Some(check) => Some(check),
            }
        },
    };
    Ok(LibraryPlan { name: library.name.clone(), artifact, native })
}

/// An error among the first libraries is the error of the whole list.
proof fn lemma_plans_error_extends(
    root: Seq<char>,
    libraries: Seq<LibraryView>,
    n: int,
    platform: Platform,
)
    requires
        0 <= n <= libraries.len(),
        library_plans(root, libraries.take(n), platform) is Err,
    ensures
        library_plans(root, libraries, platform) == library_plans(
            root,
            libraries.take(n),
            platform,
        ),
    decreases libraries.len() - n,
{
    if n == libraries.len() {
        assert(libraries.take(n) =~= libraries);
    } else {
        assert(libraries.take(n + 1).drop_last() =~= libraries.take(n));
        lemma_plans_error_extends(root, libraries, n + 1, platform);
    }
}

/// Plans the files of every library whose rules are satisfied on the
/// platform.
pub fn plan_libraries(root: &str, libraries: &Vec<Library>, platform: Platform) -> (plans: Result<
    Vec<LibraryPlan>,
    LayoutError,
>)
    ensures
        match plans {
            Ok(list) => library_plans(root@, views(libraries@), platform) == Ok::<
                Seq<LibraryPlanView>,
                LayoutError,
            >(views(list@)),
            Err(e) => library_plans(root@, views(libraries@), platform) == Err::<
                Seq<LibraryPlanView>,
                LayoutError,
            >(e),
        },
{
    let mut plans: Vec<LibraryPlan> = Vec::new();
    let mut i: usize = 0;
    let ghost all = views(libraries@);
    assert(views(plans@) =~= Seq::<LibraryPlanView>::empty());
    while i < libraries.len()
        invariant
            i <= libraries.len(),
            all == views(libraries@),
            library_plans(root@, all.take(i as int), platform) == Ok::<
                Seq<LibraryPlanView>,
                LayoutError,
            >(views(plans@)),
        decreases libraries.len() - i,
    {
        let library = &libraries[i];
        proof {
            assert(all.take(i + 1).drop_last() =~= all.take(i as int));
        }
        if optional_rules_pass(&library.rules, platform) {
            match plan_library(root, library, platform) {
                Err(e) => {
                    proof {
                        lemma_plans_error_extends(root@, all, i + 1, platform);
                    }
                    return Err(e);
                },
                Ok(plan) => {
                    let ghost earlier = plans@;
                    plans.push(plan);
                    assert(views(plans@) =~= views(earlier).push(plan@));
                },
            }
        }
        i += 1;
    }
    assert(all.take(i as int) =~= all);
    Ok(plans)
}

/// Every file that the plans ask for, in order: for each library its
/// artifact, then its native bundle.
pub fn library_files(plans: &Vec<LibraryPlan>) -> (files: Vec<FileCheck>)
    ensures
        views(files@) == library_files_spec(views(plans@)),
{
    let mut files: Vec<FileCheck> = Vec::new();
    let mut i: usize = 0;
    while i < plans.len()
        invariant
            i <= plans.len(),
            views(files@) == library_files_spec(views(plans@).take(i as int)),
        decreases plans.len() - i,
    {
        proof {
            assert(views(plans@).take(i + 1).drop_last() =~= views(plans@).take(i as int));
        }
        match &plans[i].artifact {
            Some(check) => {
                files.push(check.clone());
            },
            None => {},
        }
        match &plans[i].native {
            Some(check) => {
                files.push(check.clone());
            },
            None => {},
        }
        i += 1;
    }
    assert(views(plans@).take(i as int) =~= views(plans@));
    files
}

/// The files that the libraries of a version need on a platform, or what is
/// wrong with the first library that is not laid out as it must be.
pub open spec fn libraries_files_spec(
    root: Seq<char>,
    libraries: Seq<LibraryView>,
    platform: Platform,
) -> Result<Seq<FileCheckView>, LayoutError> {
    match library_plans(root, libraries, platform) {
        Ok(plans) => Ok(library_files_spec(plans)),
        Err(e) => Err(e),
    }
}

/// Every file that the libraries of a version need on the platform: for
/// each library whose rules are satisfied its artifact, then its native
/// bundle for the operating system.
pub fn library_checks(minecraft_path: &str, libraries: &Vec<Library>, platform: Platform)
    -> (files: Result<Vec<FileCheck>, LayoutError>)
    ensures
        match files {
            Ok(list) => libraries_files_spec(minecraft_path@, views(libraries@), platform) == Ok::<
                Seq<FileCheckView>,
                LayoutError,
            >(views(list@)),
            Err(e) => libraries_files_spec(minecraft_path@, views(libraries@), platform) == Err::<
                Seq<FileCheckView>,
                LayoutError,
            >(e),
        },
{
    match plan_libraries(minecraft_path, libraries, platform) {
        Ok(plans) => Ok(library_files(&plans)),
        Err(e) => Err(e),
    }
}

/// The native bundles that the plans ask for, in order: the archives to
/// unpack into the natives directory.
pub fn native_archives(plans: &Vec<LibraryPlan>) -> (paths: Vec<String>)
    ensures
        views(paths@) == native_paths(views(plans@)),
{
    let mut paths: Vec<String> = Vec::new();
    let mut i: usize = 0;
    while i < plans.len()
        invariant
            i <= plans.len(),
            views(paths@) == native_paths(views(plans@).take(i as int)),
        decreases plans.len() - i,
    {
        proof {
            assert(views(plans@).take(i + 1).drop_last() =~= views(plans@).take(i as int));
        }
        match &plans[i].native {
            Some(check) => {
                paths.push(check.path.clone());
            },
            None => {},
        }
        i += 1;
    }
    assert(views(plans@).take(i as int) =~= views(plans@));
    paths
}

/// The parts, each followed by `separator`.
spec fn join_trailing(parts: Seq<Seq<char>>, separator: Seq<char>) -> Seq<char>
    decreases parts.len(),
{
    if parts.len() == 0 {
        Seq::empty()
    } else {
        join_trailing(parts.drop_last(), separator) + parts.last() + separator
    }
}

/// Joining with one more part is the parts with trailing separators, then
/// that part.
proof fn lemma_join_push(parts: Seq<Seq<char>>, last: Seq<char>, separator: Seq<char>)
    ensures
        join(parts.push(last), separator) == join_trailing(parts, separator) + last,
    decreases parts.len(),
{
    let all = parts.push(last);
    assert(all.drop_last() =~= parts);
    if parts.len() == 0 {
    } else {
        lemma_join_push(parts.drop_last(), parts.last(), separator);
        assert(parts.drop_last().push(parts.last()) =~= parts);
    }
}

/// Builds the class path: the artifact of each library, in order, then the
/// client jar, joined by the platform's separator.
pub fn build_classpath(plans: &Vec<LibraryPlan>, jar: &str, platform: Platform) -> (classpath:
    String)
    ensures
        classpath@ == classpath_spec(views(plans@), jar@, platform.os),
{
    let separator = get_path_separator(platform);
    let mut classpath = String::new();
    let mut i: usize = 0;
    while i < plans.len()
        invariant
            i <= plans.len(),
            separator@ == path_separator(platform.os),
            classpath@ == join_trailing(
                artifact_paths(views(plans@).take(i as int)),
                separator@,
            ),
        decreases plans.len() - i,
    {
        proof {
            assert(views(plans@).take(i + 1).drop_last() =~= views(plans@).take(i as int));
        }
        match &plans[i].artifact {
            Some(check) => {
                let ghost earlier = artifact_paths(views(plans@).take(i as int));
                classpath.append(check.path.as_str());
                classpath.append(separator);
                assert(earlier.push(check.path@).drop_last() =~= earlier);
            },
            None => {},
        }
        i += 1;
    }
    proof {
        assert(views(plans@).take(i as int) =~= views(plans@));
        lemma_join_push(artifact_paths(views(plans@)), jar@, separator@);
    }
    classpath.append(jar);
    classpath
}

/// The class path ends with the client jar.
pub proof fn lemma_classpath_ends_with_jar(plans: Seq<LibraryPlanView>, jar: Seq<char>, os: Os)
    ensures
        ({
            let classpath = classpath_spec(plans, jar, os);
            &&& classpath.len() >= jar.len()
            &&& classpath.skip(classpath.len() - jar.len()) == jar
        }),
{
    let separator = path_separator(os);
    let head = join_trailing(artifact_paths(plans), separator);
    lemma_join_push(artifact_paths(plans), jar, separator);
    assert((head + jar).skip(head.len() as int) =~= jar);
}

/// The libraries that put an artifact on the class path: those whose rules
/// are satisfied and that have an artifact, in the order of the document.
pub open spec fn classpath_libraries(libraries: Seq<LibraryView>, platform: Platform) -> Seq<
    LibraryView,
>
    decreases libraries.len(),
{
    if libraries.len() == 0 {
        Seq::empty()
    } else {
        let earlier = classpath_libraries(libraries.drop_last(), platform);
        let last = libraries.last();
        if optional_rules_satisfied(last.rules, platform) && last.downloads.artifact is Some {
            earlier.push(last)
        } else {
            earlier
        }
    }
}

/// Where the artifact of a library lies under the libraries root, if the
/// library has an artifact that says where it goes.
pub open spec fn artifact_path(root: Seq<char>, library: LibraryView) -> Option<Seq<char>> {
    match library.downloads.artifact {
        Some(artifact) => match artifact.path {
            Some(relative) => Some(library_path_spec(root, relative)),
            None => None,
        },
        None => None,
    }
}

/// With N libraries that apply and have an artifact, the class path has
/// exactly N + 1 segments: the path of each of those artifacts under the
/// libraries root, in the order of the document, and last the client jar.
pub proof fn lemma_classpath_segments(
    root: Seq<char>,
    libraries: Seq<LibraryView>,
    platform: Platform,
    jar: Seq<char>,
)
    requires
        library_plans(root, libraries, platform) is Ok,
    ensures
        library_plans(root, libraries, platform) matches Ok(plans) && ({
            let segments = classpath_segments(plans, jar);
            let on_path = classpath_libraries(libraries, platform);
            &&& segments.len() == on_path.len() + 1
            &&& segments.last() == jar
            &&& classpath_spec(plans, jar, platform.os) == join(segments, path_separator(platform.os))
            &&& forall|k: int|
                0 <= k < on_path.len() ==> artifact_path(root, #[trigger] on_path[k]) == Some(
                    segments[k],
                )
        }),
{
    lemma_artifact_paths(root, libraries, platform);
}

/// The artifact paths of the plans are the paths of the artifacts of the
/// libraries on the class path, one for one.
proof fn lemma_artifact_paths(root: Seq<char>, libraries: Seq<LibraryView>, platform: Platform)
    requires
        library_plans(root, libraries, platform) is Ok,
    ensures
        library_plans(root, libraries, platform) matches Ok(plans) && ({
            let paths = artifact_paths(plans);
            let on_path = classpath_libraries(libraries, platform);
            &&& paths.len() == on_path.len()
            &&& forall|k: int|
                0 <= k < on_path.len() ==> artifact_path(root, #[trigger] on_path[k]) == Some(
                    paths[k],
                )
        }),
    decreases libraries.len(),
{
    if libraries.len() > 0 {
        let earlier = libraries.drop_last();
        lemma_artifact_paths(root, earlier, platform);
        let last = libraries.last();
        if optional_rules_satisfied(last.rules, platform) {
            let plans = library_plans(root, earlier, platform)->Ok_0;
            let plan = library_plan(root, last, platform)->Ok_0;
            assert(plans.push(plan).drop_last() =~= plans);
        }
    }
}

} // verus!
