//! The assets of a version: the index, the content-addressed objects, and
//! the copies under logical names that the legacy layouts ask for.

use vstd::prelude::*;
use crate::fetch::{FileCheck, FileCheckView};
use crate::integrity::{check_file, content_view, file_valid};
use crate::layout::{
    asset_index_path, asset_index_path_spec, asset_object_path, asset_object_path_spec,
    asset_object_url, asset_object_url_spec, resource_path, resource_path_spec,
    virtual_asset_path, virtual_asset_path_spec,
};
use crate::text::views;
use crate::version::{
    AssetEntry, AssetEntryView, AssetIndex, AssetIndexView, VersionSpec, VersionSpecView,
};

verus! {

/// What is wrong with an asset index.
#[derive(Clone, Copy, Debug, PartialEq, Eq, Structural)]
pub enum AssetError {
    /// An object's hash is too short to name its directory.
    HashTooShort,
}

/// A copy of an object to a place under its logical name, made only where
/// the target is missing or not what the object is.
#[derive(Debug)]
pub struct CopyTask {
    pub source: String,
    pub target: String,
    pub sha1: String,
    pub size: u64,
    pub label: String,
}

/// The mathematical value of a [`CopyTask`].
pub struct CopyTaskView {
    pub source: Seq<char>,
    pub target: Seq<char>,
    pub sha1: Seq<char>,
    pub size: u64,
    pub label: Seq<char>,
}

impl View for CopyTask {
    type V = CopyTaskView;

    open spec fn view(&self) -> CopyTaskView {
        CopyTaskView {
            source: self.source@,
            target: self.target@,
            sha1: self.sha1@,
            size: self.size,
            label: self.label@,
        }
    }
}

/// The check of the asset index of a version.
pub open spec fn asset_index_check_spec(root: Seq<char>, version: VersionSpecView)
    -> FileCheckView {
    FileCheckView {
        path: asset_index_path_spec(root, version.assets),
        sha1: version.asset_index.sha1,
        size: version.asset_index.size,
        url: version.asset_index.url,
        label: version.assets,
    }
}

/// Whether every object's hash can name its directory.
pub open spec fn hashes_long_enough(objects: Seq<AssetEntryView>) -> bool {
    forall|i: int| 0 <= i < objects.len() ==> (#[trigger] objects[i]).object.hash.len() >= 2
}

/// The check of one object: at its content-addressed place, with its hash
/// as the digest. The logical name is only the label.
pub open spec fn asset_check_spec(root: Seq<char>, entry: AssetEntryView) -> FileCheckView {
    FileCheckView {
        path: asset_object_path_spec(root, entry.object.hash),
        sha1: entry.object.hash,
        size: entry.object.size,
        url: asset_object_url_spec(entry.object.hash),
        label: entry.name,
    }
}

/// The checks of all objects, in the order of the index.
pub open spec fn asset_files_spec(root: Seq<char>, objects: Seq<AssetEntryView>) -> Seq<
    FileCheckView,
> {
    objects.map_values(|entry: AssetEntryView| asset_check_spec(root, entry))
}

/// Whether a layout flag is set.
pub open spec fn flag_set(flag: Option<bool>) -> bool {
    flag == Some(true)
}

/// The copy of an object into the virtual layout of the asset index
/// `assets`.
pub open spec fn virtual_copy_spec(root: Seq<char>, assets: Seq<char>, entry: AssetEntryView)
    -> CopyTaskView {
    CopyTaskView {
        source: asset_object_path_spec(root, entry.object.hash),
        target: virtual_asset_path_spec(root, assets, entry.name),
        sha1: entry.object.hash,
        size: entry.object.size,
        label: entry.name,
    }
}

/// The copy of an object into the resources layout.
pub open spec fn resource_copy_spec(root: Seq<char>, entry: AssetEntryView) -> CopyTaskView {
    CopyTaskView {
        source: asset_object_path_spec(root, entry.object.hash),
        target: resource_path_spec(root, entry.name),
        sha1: entry.object.hash,
        size: entry.object.size,
        label: entry.name,
    }
}

/// The copies of one object: into the virtual layout where that is asked
/// for, then into the resources layout where that is asked for.
pub open spec fn entry_copies_spec(
    root: Seq<char>,
    assets: Seq<char>,
    entry: AssetEntryView,
    to_virtual: bool,
    to_resources: bool,
) -> Seq<CopyTaskView> {
    (if to_virtual {
        seq![virtual_copy_spec(root, assets, entry)]
    } else {
        Seq::empty()
    }) + (if to_resources {
        seq![resource_copy_spec(root, entry)]
    } else {
        Seq::empty()
    })
}

/// The copies of all objects, object by object.
pub open spec fn copies_spec(
    root: Seq<char>,
    assets: Seq<char>,
    objects: Seq<AssetEntryView>,
    to_virtual: bool,
    to_resources: bool,
) -> Seq<CopyTaskView>
    decreases objects.len(),
{
    if objects.len() == 0 {
        Seq::empty()
    } else {
        copies_spec(root, assets, objects.drop_last(), to_virtual, to_resources)
            + entry_copies_spec(root, assets, objects.last(), to_virtual, to_resources)
    }
}

/// The copies that the legacy layouts of an index ask for.
pub open spec fn legacy_copies_spec(root: Seq<char>, assets: Seq<char>, index: AssetIndexView)
    -> Seq<CopyTaskView> {
    copies_spec(
        root,
        assets,
        index.objects,
        flag_set(index.virtual_assets),
        flag_set(index.map_to_resources),
    )
}

/// The check of the asset index of a version.
pub fn asset_index_check(minecraft_path: &str, version: &VersionSpec) -> (check: FileCheck)
    ensures
        check@ == asset_index_check_spec(minecraft_path@, version@),
{
    FileCheck {
        path: asset_index_path(minecraft_path, version.assets.as_str()),
        sha1: version.asset_index.sha1.clone(),
        size: version.asset_index.size,
        url: version.asset_index.url.clone(),
        label: version.assets.clone(),
    }
}

/// The check of one object, where its hash is long enough.
fn asset_check(minecraft_path: &str, entry: &AssetEntry) -> (check: Option<FileCheck>)
    ensures
        match check {
            Some(c) => entry.object.hash@.len() >= 2 && c@ == asset_check_spec(
                minecraft_path@,
                entry@,
            ),
            None => entry.object.hash@.len() < 2,
        },
{
    let hash = entry.object.hash.as_str();
    let path = match asset_object_path(minecraft_path, hash) {
        Some(path) => path,
        None => {
            return None;
        },
    };
    let url = match asset_object_url(hash) {
        Some(url) => url,
        None => {
            return None;
        },
    };
    Some(
        FileCheck {
            path,
            sha1: entry.object.hash.clone(),
            size: entry.object.size,
            url,
            label: entry.name.clone(),
        },
    )
}

/// The checks of all objects of an index, in its order: each object at its
/// content-addressed place. An index with a hash too short to name a
/// directory has none.
pub fn asset_checks(minecraft_path: &str, index: &AssetIndex) -> (files: Result<
    Vec<FileCheck>,
    AssetError,
>)
    ensures
        match files {
            Ok(list) => hashes_long_enough(index@.objects) && views(list@) == asset_files_spec(
                minecraft_path@,
                index@.objects,
            ),
            Err(e) => !hashes_long_enough(index@.objects),
        },
{
    let mut list: Vec<FileCheck> = Vec::new();
    let mut i: usize = 0;
    let ghost objects = index@.objects;
    while i < index.objects.len()
        invariant
            i <= index.objects.len(),
            objects == views(index.objects@),
            hashes_long_enough(objects.take(i as int)),
            views(list@) == asset_files_spec(minecraft_path@, objects.take(i as int)),
        decreases index.objects.len() - i,
    {
        assert(objects[i as int] == index.objects@[i as int]@);
        match asset_check(minecraft_path, &index.objects[i]) {
            Some(check) => {
                let ghost earlier = list@;
                list.push(check);
                assert(views(list@) =~= views(earlier).push(check@));
            },
            None => {
                return Err(AssetError::HashTooShort);
            },
        }
        i += 1;
    }
    assert(objects.take(i as int) =~= objects);
    Ok(list)
}

/// The copies that the legacy layouts of an index ask for, object by
/// object: into the virtual layout of `assets`, then into the resources
/// layout, each where the index asks for it.
pub fn legacy_copies(minecraft_path: &str, assets: &str, index: &AssetIndex) -> (copies: Result<
    Vec<CopyTask>,
    AssetError,
>)
    ensures
        match copies {
            Ok(list) => hashes_long_enough(index@.objects) && views(list@) == legacy_copies_spec(
                minecraft_path@,
                assets@,
                index@,
            ),
            Err(e) => !hashes_long_enough(index@.objects),
        },
{
    let to_virtual = match index.virtual_assets {
        Some(flag) => flag,
        None => false,
    };
    let to_resources = match index.map_to_resources {
        Some(flag) => flag,
        None => false,
    };
    let mut list: Vec<CopyTask> = Vec::new();
    let mut i: usize = 0;
    let ghost objects = index@.objects;
    while i < index.objects.len()
        invariant
            i <= index.objects.len(),
            objects == views(index.objects@),
            to_virtual == flag_set(index.virtual_assets),
            to_resources == flag_set(index.map_to_resources),
            hashes_long_enough(objects.take(i as int)),
            views(list@) == copies_spec(
                minecraft_path@,
                assets@,
                objects.take(i as int),
                to_virtual,
                to_resources,
            ),
        decreases index.objects.len() - i,
    {
        let entry = &index.objects[i];
        proof {
            assert(objects.take(i + 1).drop_last() =~= objects.take(i as int));
            assert(objects[i as int] == entry@);
        }
        let source = match asset_object_path(minecraft_path, entry.object.hash.as_str()) {
            Some(path) => path,
            None => {
                return Err(AssetError::HashTooShort);
            },
        };
        if to_virtual {
            list.push(
                CopyTask {
                    source: source.clone(),
                    target: virtual_asset_path(minecraft_path, assets, entry.name.as_str()),
                    sha1: entry.object.hash.clone(),
                    size: entry.object.size,
                    label: entry.name.clone(),
                },
            );
        }
        if to_resources {
            list.push(
                CopyTask {
                    source,
                    target: resource_path(minecraft_path, entry.name.as_str()),
                    sha1: entry.object.hash.clone(),
                    size: entry.object.size,
                    label: entry.name.clone(),
                },
            );
        }
        i += 1;
    }
    assert(objects.take(i as int) =~= objects);
    Ok(list)
}

/// With only the virtual layout asked for, the copies are one for each
/// object, into the virtual layout.
proof fn lemma_copies_virtual_only(
    root: Seq<char>,
    assets: Seq<char>,
    objects: Seq<AssetEntryView>,
)
    ensures
        copies_spec(root, assets, objects, true, false) == objects.map_values(
            |entry: AssetEntryView| virtual_copy_spec(root, assets, entry),
        ),
    decreases objects.len(),
{
    if objects.len() > 0 {
        lemma_copies_virtual_only(root, assets, objects.drop_last());
    }
}

/// A place in the virtual layout is never a place in the resources layout.
pub proof fn lemma_virtual_is_not_resources(
    root: Seq<char>,
    assets: Seq<char>,
    name: Seq<char>,
    other: Seq<char>,
)
    ensures
        virtual_asset_path_spec(root, assets, name) != resource_path_spec(root, other),
{
    reveal_strlit("/assets/virtual/");
    reveal_strlit("/resources/");
    reveal_strlit("/");
    let in_virtual = virtual_asset_path_spec(root, assets, name);
    let in_resources = resource_path_spec(root, other);
    let at = root.len() as int + 1;
    assert(in_virtual[at] == 'a');
    assert(in_resources[at] == 'r');
}

/// Where an index asks for the virtual layout and not for the resources
/// layout, every object is checked at its content-addressed place and
/// copied from there to its place in the virtual layout; nothing else is
/// copied, and no copy goes to the resources layout.
pub proof fn lemma_virtual_layout_only(root: Seq<char>, assets: Seq<char>, index: AssetIndexView)
    requires
        flag_set(index.virtual_assets),
        !flag_set(index.map_to_resources),
    ensures
        ({
            let objects = index.objects;
            let files = asset_files_spec(root, objects);
            let copies = legacy_copies_spec(root, assets, index);
            &&& files.len() == objects.len()
            &&& copies.len() == objects.len()
            &&& forall|i: int|
                0 <= i < objects.len() ==> (#[trigger] files[i]).path == asset_object_path_spec(
                    root,
                    objects[i].object.hash,
                )
            &&& forall|i: int|
                0 <= i < objects.len() ==> #[trigger] copies[i] == virtual_copy_spec(
                    root,
                    assets,
                    objects[i],
                )
            &&& forall|i: int, name: Seq<char>|
                0 <= i < copies.len() ==> (#[trigger] copies[i]).target != #[trigger] resource_path_spec(
                    root,
                    name,
                )
        }),
{
    let objects = index.objects;
    let copies = legacy_copies_spec(root, assets, index);
    lemma_copies_virtual_only(root, assets, objects);
    assert forall|i: int, name: Seq<char>| 0 <= i < copies.len() implies (#[trigger] copies[i]).target
        != #[trigger] resource_path_spec(root, name) by {
        lemma_virtual_is_not_resources(root, assets, objects[i].name, name);
    }
}

impl CopyTask {
    /// Whether the copy has to be made, given the present contents of the
    /// target (`None` where it does not exist): it has unless the target is
    /// already what the object is.
    pub fn is_needed(&self, target_content: Option<&[u8]>) -> (needed: bool)
        ensures
            needed == !file_valid(content_view(target_content), self.sha1@, self.size),
    {
        !check_file(target_content, self.sha1.as_str(), self.size)
    }
}

} // verus!
