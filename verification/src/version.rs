//! The per-version document: what to download, which libraries and assets
//! a version needs, and how its process is invoked.

use vstd::prelude::*;
use crate::rules::{Rule, RuleView};
use crate::text::{option_view, option_views, views};

verus! {

/// A value that a document gives either alone or as a list.
#[derive(Debug)]
pub enum SingleOrVec<T> {
    Single(T),
    Vector(Vec<T>),
}

/// An argument that is passed only where its rules are satisfied.
#[derive(Debug)]
pub struct DynamicArgument {
    pub rules: Vec<Rule>,
    pub value: SingleOrVec<String>,
}

/// One entry of a structured argument list.
#[derive(Debug)]
pub enum Argument {
    /// A literal, always passed.
    Static(String),
    /// One or more values gated by rules.
    Dynamic(DynamicArgument),
}

/// The structured arguments of a version.
#[derive(Debug)]
pub struct VersionArguments {
    pub game: Vec<Argument>,
    pub jvm: Vec<Argument>,
}

/// The descriptor of a version's asset index.
#[derive(Debug)]
pub struct VersionAssets {
    pub id: String,
    pub sha1: String,
    pub size: u64,
    pub total_size: u64,
    pub url: String,
}

/// A content descriptor: where a file comes from, what it must hold, and,
/// for some kinds of content, where it goes.
#[derive(Debug)]
pub struct Download {
    pub path: Option<String>,
    pub sha1: String,
    pub size: u64,
    pub url: String,
}

/// The downloads of a version itself.
#[derive(Debug)]
pub struct VersionDownloads {
    pub client: Download,
    pub server: Option<Download>,
    pub client_mappings: Option<Download>,
    pub server_mappings: Option<Download>,
}

/// A named variant of a library's artifact.
#[derive(Debug)]
pub struct Classifier {
    pub name: String,
    pub download: Download,
}

/// What a library offers for download. A lookup among the classifiers
/// takes the first of a name.
#[derive(Debug)]
pub struct LibraryDownloads {
    pub artifact: Option<Download>,
    pub classifiers: Option<Vec<Classifier>>,
}

/// The classifier that holds a library's native bundle, per operating
/// system.
#[derive(Debug)]
pub struct LibraryNatives {
    pub linux: Option<String>,
    pub osx: Option<String>,
    pub windows: Option<String>,
}

/// A library of a version.
#[derive(Debug)]
pub struct Library {
    pub downloads: LibraryDownloads,
    pub name: String,
    pub natives: Option<LibraryNatives>,
    pub rules: Option<Vec<Rule>>,
}

/// The Java runtime a version asks for.
#[derive(Debug)]
pub struct JavaVersion {
    pub component: String,
    pub major_version: u8,
}

/// The document of one version.
#[derive(Debug)]
pub struct VersionSpec {
    pub arguments: Option<VersionArguments>,
    pub asset_index: VersionAssets,
    pub assets: String,
    pub downloads: VersionDownloads,
    pub id: String,
    pub java_version: Option<JavaVersion>,
    pub libraries: Vec<Library>,
    pub main_class: String,
    pub minecraft_arguments: Option<String>,
    pub minimum_launcher_version: u8,
    pub version_type: String,
}

/// One object of an asset index: its content hash and size.
#[derive(Debug)]
pub struct AssetObject {
    pub hash: String,
    pub size: u64,
}

/// An object of an asset index under its logical name.
#[derive(Debug)]
pub struct AssetEntry {
    pub name: String,
    pub object: AssetObject,
}

/// An asset index: its objects in the order of their names, and the two
/// legacy layout flags.
#[derive(Debug)]
pub struct AssetIndex {
    pub objects: Vec<AssetEntry>,
    pub virtual_assets: Option<bool>,
    pub map_to_resources: Option<bool>,
}

/// The mathematical value of a [`SingleOrVec`].
pub enum SingleOrVecView<V> {
    Single(V),
    Vector(Seq<V>),
}

impl<T: View> View for SingleOrVec<T> {
    type V = SingleOrVecView<T::V>;

    open spec fn view(&self) -> SingleOrVecView<T::V> {
        match self {
            SingleOrVec::Single(value) => SingleOrVecView::Single(value@),
            SingleOrVec::Vector(values) => SingleOrVecView::Vector(views(values@)),
        }
    }
}

/// The mathematical value of a [`DynamicArgument`].
pub struct DynamicArgumentView {
    pub rules: Seq<RuleView>,
    pub value: SingleOrVecView<Seq<char>>,
}

impl View for DynamicArgument {
    type V = DynamicArgumentView;

    open spec fn view(&self) -> DynamicArgumentView {
        DynamicArgumentView { rules: views(self.rules@), value: self.value@ }
    }
}

/// The mathematical value of an [`Argument`].
pub enum ArgumentView {
    Static(Seq<char>),
    Dynamic(DynamicArgumentView),
}

impl View for Argument {
    type V = ArgumentView;

    open spec fn view(&self) -> ArgumentView {
        match self {
            Argument::Static(value) => ArgumentView::Static(value@),
            Argument::Dynamic(gated) => ArgumentView::Dynamic(gated@),
        }
    }
}

/// The mathematical value of a [`VersionArguments`].
pub struct VersionArgumentsView {
    pub game: Seq<ArgumentView>,
    pub jvm: Seq<ArgumentView>,
}

impl View for VersionArguments {
    type V = VersionArgumentsView;

    open spec fn view(&self) -> VersionArgumentsView {
        VersionArgumentsView { game: views(self.game@), jvm: views(self.jvm@) }
    }
}

/// The mathematical value of a [`VersionAssets`].
pub struct VersionAssetsView {
    pub id: Seq<char>,
    pub sha1: Seq<char>,
    pub size: u64,
    pub total_size: u64,
    pub url: Seq<char>,
}

impl View for VersionAssets {
    type V = VersionAssetsView;

    open spec fn view(&self) -> VersionAssetsView {
        VersionAssetsView {
            id: self.id@,
            sha1: self.sha1@,
            size: self.size,
            total_size: self.total_size,
            url: self.url@,
        }
    }
}

/// The mathematical value of a [`Download`].
pub struct DownloadView {
    pub path: Option<Seq<char>>,
    pub sha1: Seq<char>,
    pub size: u64,
    pub url: Seq<char>,
}

impl View for Download {
    type V = DownloadView;

    open spec fn view(&self) -> DownloadView {
        DownloadView {
            path: option_view(self.path),
            sha1: self.sha1@,
            size: self.size,
            url: self.url@,
        }
    }
}

/// The mathematical value of a [`VersionDownloads`].
pub struct VersionDownloadsView {
    pub client: DownloadView,
    pub server: Option<DownloadView>,
    pub client_mappings: Option<DownloadView>,
    pub server_mappings: Option<DownloadView>,
}

impl View for VersionDownloads {
    type V = VersionDownloadsView;

    open spec fn view(&self) -> VersionDownloadsView {
        VersionDownloadsView {
            client: self.client@,
            server: option_view(self.server),
            client_mappings: option_view(self.client_mappings),
            server_mappings: option_view(self.server_mappings),
        }
    }
}

/// The mathematical value of a [`Classifier`].
pub struct ClassifierView {
    pub name: Seq<char>,
    pub download: DownloadView,
}

impl View for Classifier {
    type V = ClassifierView;

    open spec fn view(&self) -> ClassifierView {
        ClassifierView { name: self.name@, download: self.download@ }
    }
}

/// The mathematical value of a [`LibraryDownloads`].
pub struct LibraryDownloadsView {
    pub artifact: Option<DownloadView>,
    pub classifiers: Option<Seq<ClassifierView>>,
}

impl View for LibraryDownloads {
    type V = LibraryDownloadsView;

    open spec fn view(&self) -> LibraryDownloadsView {
        LibraryDownloadsView {
            artifact: option_view(self.artifact),
            classifiers: option_views(self.classifiers),
        }
    }
}

/// The mathematical value of a [`LibraryNatives`].
pub struct LibraryNativesView {
    pub linux: Option<Seq<char>>,
    pub osx: Option<Seq<char>>,
    pub windows: Option<Seq<char>>,
}

impl View for LibraryNatives {
    type V = LibraryNativesView;

    open spec fn view(&self) -> LibraryNativesView {
        LibraryNativesView {
            linux: option_view(self.linux),
            osx: option_view(self.osx),
            windows: option_view(self.windows),
        }
    }
}

/// The mathematical value of a [`Library`].
pub struct LibraryView {
    pub downloads: LibraryDownloadsView,
    pub name: Seq<char>,
    pub natives: Option<LibraryNativesView>,
    pub rules: Option<Seq<RuleView>>,
}

impl View for Library {
    type V = LibraryView;

    open spec fn view(&self) -> LibraryView {
        LibraryView {
            downloads: self.downloads@,
            name: self.name@,
            natives: option_view(self.natives),
            rules: option_views(self.rules),
        }
    }
}

/// The mathematical value of a [`JavaVersion`].
pub struct JavaVersionView {
    pub component: Seq<char>,
    pub major_version: u8,
}

impl View for JavaVersion {
    type V = JavaVersionView;

    open spec fn view(&self) -> JavaVersionView {
        JavaVersionView { component: self.component@, major_version: self.major_version }
    }
}

/// The mathematical value of a [`VersionSpec`].
pub struct VersionSpecView {
    pub arguments: Option<VersionArgumentsView>,
    pub asset_index: VersionAssetsView,
    pub assets: Seq<char>,
    pub downloads: VersionDownloadsView,
    pub id: Seq<char>,
    pub java_version: Option<JavaVersionView>,
    pub libraries: Seq<LibraryView>,
    pub main_class: Seq<char>,
    pub minecraft_arguments: Option<Seq<char>>,
    pub minimum_launcher_version: u8,
    pub version_type: Seq<char>,
}

impl View for VersionSpec {
    type V = VersionSpecView;

    open spec fn view(&self) -> VersionSpecView {
        VersionSpecView {
            arguments: option_view(self.arguments),
            asset_index: self.asset_index@,
            assets: self.assets@,
            downloads: self.downloads@,
            id: self.id@,
            java_version: option_view(self.java_version),
            libraries: views(self.libraries@),
            main_class: self.main_class@,
            minecraft_arguments: option_view(self.minecraft_arguments),
            minimum_launcher_version: self.minimum_launcher_version,
            version_type: self.version_type@,
        }
    }
}

/// The mathematical value of an [`AssetObject`].
pub struct AssetObjectView {
    pub hash: Seq<char>,
    pub size: u64,
}

impl View for AssetObject {
    type V = AssetObjectView;

    open spec fn view(&self) -> AssetObjectView {
        AssetObjectView { hash: self.hash@, size: self.size }
    }
}

/// The mathematical value of an [`AssetEntry`].
pub struct AssetEntryView {
    pub name: Seq<char>,
    pub object: AssetObjectView,
}

impl View for AssetEntry {
    type V = AssetEntryView;

    open spec fn view(&self) -> AssetEntryView {
        AssetEntryView { name: self.name@, object: self.object@ }
    }
}

/// The mathematical value of an [`AssetIndex`].
pub struct AssetIndexView {
    pub objects: Seq<AssetEntryView>,
    pub virtual_assets: Option<bool>,
    pub map_to_resources: Option<bool>,
}

impl View for AssetIndex {
    type V = AssetIndexView;

    open spec fn view(&self) -> AssetIndexView {
        AssetIndexView {
            objects: views(self.objects@),
            virtual_assets: self.virtual_assets,
            map_to_resources: self.map_to_resources,
        }
    }
}

/// The major version of Java that runs a version without a declared one.
pub const DEFAULT_JAVA_MAJOR: u8 = 8;

/// The major version of the Java runtime that a version needs.
pub open spec fn java_major(spec: VersionSpecView) -> u8 {
    match spec.java_version {
        Some(v) => v.major_version,
        None => DEFAULT_JAVA_MAJOR,
    }
}

impl VersionSpec {
    /// The major version of the Java runtime that this version needs.
    pub fn java_major(&self) -> (major: u8)
        ensures
            major == java_major(self@),
    {
        match &self.java_version {
            Some(v) => v.major_version,
            None => DEFAULT_JAVA_MAJOR,
        }
    }
}

} // verus!
