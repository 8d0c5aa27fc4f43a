//! The manifest of all versions, and the choice of one of them.

use vstd::prelude::*;
use vstd::string::*;
use crate::text::{concat_strs, str_eq, views};

verus! {

/// The newest release and the newest snapshot, by id.
#[derive(Debug)]
pub struct MinecraftLatestVersions {
    pub release: String,
    pub snapshot: String,
}

/// One version of the manifest.
#[derive(Debug, PartialEq, Eq)]
pub struct MinecraftVersion {
    pub id: String,
    pub version_type: String,
    pub url: String,
    pub time: String,
    pub release_time: String,
}

/// The manifest: the newest versions, and every version, newest first.
#[derive(Debug)]
pub struct MinecraftVersionList {
    pub latest: MinecraftLatestVersions,
    pub versions: Vec<MinecraftVersion>,
}

/// A choice among the versions of a manifest.
#[derive(Debug, PartialEq, Eq)]
pub enum VersionSelection {
    /// The newest release, which has this id.
    Latest(String),
    /// The newest snapshot, which has this id.
    LatestSnapshot(String),
    /// This version.
    Version(MinecraftVersion),
}

/// The mathematical value of a [`MinecraftLatestVersions`].
pub struct MinecraftLatestVersionsView {
    pub release: Seq<char>,
    pub snapshot: Seq<char>,
}

impl View for MinecraftLatestVersions {
    type V = MinecraftLatestVersionsView;

    open spec fn view(&self) -> MinecraftLatestVersionsView {
        MinecraftLatestVersionsView { release: self.release@, snapshot: self.snapshot@ }
    }
}

/// The mathematical value of a [`MinecraftVersion`].
pub struct MinecraftVersionView {
    pub id: Seq<char>,
    pub version_type: Seq<char>,
    pub url: Seq<char>,
    pub time: Seq<char>,
    pub release_time: Seq<char>,
}

impl View for MinecraftVersion {
    type V = MinecraftVersionView;

    open spec fn view(&self) -> MinecraftVersionView {
        MinecraftVersionView {
            id: self.id@,
            version_type: self.version_type@,
            url: self.url@,
            time: self.time@,
            release_time: self.release_time@,
        }
    }
}

/// The mathematical value of a [`MinecraftVersionList`].
pub struct MinecraftVersionListView {
    pub latest: MinecraftLatestVersionsView,
    pub versions: Seq<MinecraftVersionView>,
}

impl View for MinecraftVersionList {
    type V = MinecraftVersionListView;

    open spec fn view(&self) -> MinecraftVersionListView {
        MinecraftVersionListView { latest: self.latest@, versions: views(self.versions@) }
    }
}

/// The mathematical value of a [`VersionSelection`].
pub enum VersionSelectionView {
    Latest(Seq<char>),
    LatestSnapshot(Seq<char>),
    Version(MinecraftVersionView),
}

impl View for VersionSelection {
    type V = VersionSelectionView;

    open spec fn view(&self) -> VersionSelectionView {
        match self {
            VersionSelection::Latest(id) => VersionSelectionView::Latest(id@),
            VersionSelection::LatestSnapshot(id) => VersionSelectionView::LatestSnapshot(id@),
            VersionSelection::Version(v) => VersionSelectionView::Version(v@),
        }
    }
}

impl Clone for MinecraftVersion {
    fn clone(&self) -> (copy: MinecraftVersion)
        ensures
            copy@ == self@,
    {
        MinecraftVersion {
            id: self.id.clone(),
            version_type: self.version_type.clone(),
            url: self.url.clone(),
            time: self.time.clone(),
            release_time: self.release_time.clone(),
        }
    }
}

impl Clone for VersionSelection {
    fn clone(&self) -> (copy: VersionSelection)
        ensures
            copy@ == self@,
    {
        match self {
            VersionSelection::Latest(id) => VersionSelection::Latest(id.clone()),
            VersionSelection::LatestSnapshot(id) => VersionSelection::LatestSnapshot(id.clone()),
            VersionSelection::Version(v) => VersionSelection::Version(v.clone()),
        }
    }
}

/// The choices a manifest offers: the newest release, the newest snapshot,
/// then each version in the manifest's order.
pub open spec fn selection_list(list: MinecraftVersionListView) -> Seq<VersionSelectionView> {
    seq![
        VersionSelectionView::Latest(list.latest.release),
        VersionSelectionView::LatestSnapshot(list.latest.snapshot),
    ] + list.versions.map_values(|v: MinecraftVersionView| VersionSelectionView::Version(v))
}

/// How a choice is shown.
pub open spec fn selection_label(selection: VersionSelectionView) -> Seq<char> {
    match selection {
        VersionSelectionView::Latest(id) => "Latest Release ("@ + id + ")"@,
        VersionSelectionView::LatestSnapshot(id) => "Latest Snapshot ("@ + id + ")"@,
        VersionSelectionView::Version(v) => v.version_type + " "@ + v.id,
    }
}

/// Where the version that an id stands for is found: at the first version
/// of that id, or at the front where none has it.
pub open spec fn position_of_id(versions: Seq<MinecraftVersionView>, id: Seq<char>, at: int)
    -> bool {
    &&& 0 <= at < versions.len()
    &&& forall|k: int| 0 <= k < at ==> (#[trigger] versions[k]).id != id
    &&& versions[at].id == id || (at == 0 && forall|k: int|
        0 <= k < versions.len() ==> (#[trigger] versions[k]).id != id)
}

/// Whether `chosen` is the version that a choice stands for among the
/// versions of a manifest that lists any. A version stands for itself; a
/// newest release or snapshot stands for the version its id is found at.
pub open spec fn stands_for(
    selection: VersionSelectionView,
    versions: Seq<MinecraftVersionView>,
    chosen: MinecraftVersionView,
) -> bool {
    match selection {
        VersionSelectionView::Version(own) => chosen == own,
        VersionSelectionView::Latest(id) => exists|at: int|
            position_of_id(versions, id, at) && chosen == versions[at],
        VersionSelectionView::LatestSnapshot(id) => exists|at: int|
            position_of_id(versions, id, at) && chosen == versions[at],
    }
}

impl VersionSelection {
    /// The choices a manifest offers.
    pub fn make_list(version_list: &MinecraftVersionList) -> (list: Vec<VersionSelection>)
        ensures
            views(list@) == selection_list(version_list@),
    {
        let mut list: Vec<VersionSelection> = Vec::new();
        list.push(VersionSelection::Latest(version_list.latest.release.clone()));
        list.push(VersionSelection::LatestSnapshot(version_list.latest.snapshot.clone()));
        let ghost head = views(list@);
        let ghost versions = views(version_list.versions@);
        let mut i: usize = 0;
        while i < version_list.versions.len()
            invariant
                i <= version_list.versions.len(),
                versions == views(version_list.versions@),
                head == seq![
                    VersionSelectionView::Latest(version_list.latest.release@),
                    VersionSelectionView::LatestSnapshot(version_list.latest.snapshot@),
                ],
                views(list@) == head + versions.take(i as int).map_values(
                    |v: MinecraftVersionView| VersionSelectionView::Version(v),
                ),
            decreases version_list.versions.len() - i,
        {
            let ghost earlier = views(list@);
            let copy = version_list.versions[i].clone();
            list.push(VersionSelection::Version(copy));
            assert(views(list@) =~= earlier.push(
                VersionSelectionView::Version(versions[i as int]),
            ));
            i += 1;
        }
        list
    }

    /// How the choice is shown.
    pub fn label(&self) -> (text: String)
        ensures
            text@ == selection_label(self@),
    {
        match self {
            VersionSelection::Latest(id) => {
                let mut text = concat_strs("Latest Release (", id.as_str());
                text.append(")");
                text
            },
            VersionSelection::LatestSnapshot(id) => {
                let mut text = concat_strs("Latest Snapshot (", id.as_str());
                text.append(")");
                text
            },
            VersionSelection::Version(v) => {
                let mut text = concat_strs(v.version_type.as_str(), " ");
                text.append(v.id.as_str());
                text
            },
        }
    }

    /// The version that the choice stands for in a manifest. A version
    /// stands for itself. A newest release or snapshot stands for the first
    /// version of its id, or for the manifest's first version where none has
    /// that id. An empty manifest offers no version at all.
    pub fn version<'a>(&'a self, version_list: &'a MinecraftVersionList) -> (chosen: Option<
        &'a MinecraftVersion,
    >)
        ensures
            version_list@.versions.len() == 0 <==> chosen is None,
            chosen matches Some(v) ==> stands_for(self@, version_list@.versions, v@),
    {
        if version_list.versions.len() == 0 {
            return None;
        }
        match self {
            VersionSelection::Version(v) => Some(v),
            VersionSelection::Latest(id) => Some(find_version(&version_list.versions, id.as_str())),
            VersionSelection::LatestSnapshot(id) => Some(
                find_version(&version_list.versions, id.as_str()),
            ),
        }
    }
}

/// The version that an id stands for.
fn find_version<'a>(versions: &'a Vec<MinecraftVersion>, id: &str) -> (chosen: &'a MinecraftVersion)
    requires
        versions@.len() > 0,
    ensures
        exists|at: int| position_of_id(views(versions@), id@, at) && chosen@ == views(versions@)[at],
{
    let mut i: usize = 0;
    while i < versions.len()
        invariant
            i <= versions.len(),
            forall|k: int| 0 <= k < i ==> (#[trigger] views(versions@)[k]).id != id@,
        decreases versions.len() - i,
    {
        if str_eq(versions[i].id.as_str(), id) {
            assert(position_of_id(views(versions@), id@, i as int));
            return &versions[i];
        }
        i += 1;
    }
    assert(position_of_id(views(versions@), id@, 0));
    &versions[0]
}

} // verus!
