//! Where everything lives below the installation root, and the addresses
//! content is fetched from.

use vstd::prelude::*;
use vstd::string::*;
use crate::platform::{arch_name, get_arch, get_os, os_name, Platform};
use crate::text::{decimal, decimal_string, from_chars, to_chars};

verus! {

/// The directory of a version.
pub open spec fn version_dir_spec(root: Seq<char>, id: Seq<char>) -> Seq<char> {
    root + "/versions/"@ + id
}

/// The cached document of a version.
pub open spec fn version_spec_path_spec(root: Seq<char>, id: Seq<char>) -> Seq<char> {
    root + "/versions/"@ + id + "/"@ + id + ".json"@
}

/// The client jar of a version.
pub open spec fn version_jar_path_spec(root: Seq<char>, id: Seq<char>) -> Seq<char> {
    root + "/versions/"@ + id + "/"@ + id + ".jar"@
}

/// A library file, from its path relative to the shared libraries root.
pub open spec fn library_path_spec(root: Seq<char>, relative: Seq<char>) -> Seq<char> {
    root + "/libraries/"@ + relative
}

/// The asset index of the given name.
pub open spec fn asset_index_path_spec(root: Seq<char>, assets: Seq<char>) -> Seq<char> {
    root + "/assets/indexes/"@ + assets + ".json"@
}

/// The content-addressed place of the object with the given hash: a
/// directory named by the hash's first two characters, then the hash.
pub open spec fn asset_object_path_spec(root: Seq<char>, hash: Seq<char>) -> Seq<char> {
    root + "/assets/objects/"@ + hash.take(2) + "/"@ + hash
}

/// The address an asset object is fetched from.
pub open spec fn asset_object_url_spec(hash: Seq<char>) -> Seq<char> {
    "http://resources.download.minecraft.net/"@ + hash.take(2) + "/"@ + hash
}

/// An asset under its logical name in the legacy virtual layout.
pub open spec fn virtual_asset_path_spec(
    root: Seq<char>,
    assets: Seq<char>,
    name: Seq<char>,
) -> Seq<char> {
    root + "/assets/virtual/"@ + assets + "/"@ + name
}

/// An asset under its logical name in the legacy resources layout.
pub open spec fn resource_path_spec(root: Seq<char>, name: Seq<char>) -> Seq<char> {
    root + "/resources/"@ + name
}

/// The root of all assets.
pub open spec fn assets_root_spec(root: Seq<char>) -> Seq<char> {
    root + "/assets/"@
}

/// The directory of the legacy virtual layout of an asset index.
pub open spec fn game_assets_spec(root: Seq<char>, assets: Seq<char>) -> Seq<char> {
    root + "/assets/virtual/"@ + assets + "/"@
}

/// The directory that holds every runtime.
pub open spec fn runtime_root_spec(root: Seq<char>) -> Seq<char> {
    root + "/runtime/"@
}

/// The directory of the runtime of a major version on a platform.
pub open spec fn runtime_dir_spec(root: Seq<char>, major: u8, platform: Platform) -> Seq<char> {
    root + "/runtime/java"@ + decimal(major as nat) + "-"@ + os_name(platform.os) + "-"@
        + arch_name(platform.arch) + "/"@
}

/// The `java` executable of a runtime.
pub open spec fn java_executable_spec(root: Seq<char>, major: u8, platform: Platform) -> Seq<
    char,
> {
    runtime_dir_spec(root, major, platform) + "bin/java"@
}

/// The directory of a version.
pub fn version_dir(root: &str, id: &str) -> (path: String)
    ensures
        path@ == version_dir_spec(root@, id@),
{
    let mut path = String::from_str(root);
    path.append("/versions/");
    path.append(id);
    path
}

/// The cached document of a version.
pub fn version_spec_path(root: &str, id: &str) -> (path: String)
    ensures
        path@ == version_spec_path_spec(root@, id@),
{
    let mut path = String::from_str(root);
    path.append("/versions/");
    path.append(id);
    path.append("/");
    path.append(id);
    path.append(".json");
    path
}

/// The client jar of a version.
pub fn version_jar_path(root: &str, id: &str) -> (path: String)
    ensures
        path@ == version_jar_path_spec(root@, id@),
{
    let mut path = String::from_str(root);
    path.append("/versions/");
    path.append(id);
    path.append("/");
    path.append(id);
    path.append(".jar");
    path
}

/// A library file, from its path relative to the shared libraries root.
pub fn library_path(root: &str, relative: &str) -> (path: String)
    ensures
        path@ == library_path_spec(root@, relative@),
{
    let mut path = String::from_str(root);
    path.append("/libraries/");
    path.append(relative);
    path
}

/// The asset index of the given name.
pub fn asset_index_path(root: &str, assets: &str) -> (path: String)
    ensures
        path@ == asset_index_path_spec(root@, assets@),
{
    let mut path = String::from_str(root);
    path.append("/assets/indexes/");
    path.append(assets);
    path.append(".json");
    path
}

/// The first two characters of a hash, where it has as many.
pub fn hash_prefix(hash: &str) -> (prefix: Option<String>)
    ensures
        match prefix {
            Some(p) => hash@.len() >= 2 && p@ == hash@.take(2),
            None => hash@.len() < 2,
        },
{
    let chars = to_chars(hash);
    if chars.len() < 2 {
        None
    } else {
        let p = from_chars(&chars, 0, 2);
        Some(p)
    }
}

/// The content-addressed place of an object, where its hash has the two
/// characters that name the directory.
pub fn asset_object_path(root: &str, hash: &str) -> (path: Option<String>)
    ensures
        match path {
            Some(p) => hash@.len() >= 2 && p@ == asset_object_path_spec(root@, hash@),
            None => hash@.len() < 2,
        },
{
    match hash_prefix(hash) {
        Some(prefix) => {
            let mut path = String::from_str(root);
            path.append("/assets/objects/");
            path.append(prefix.as_str());
            path.append("/");
            path.append(hash);
            Some(path)
        },
        None => None,
    }
}

/// The address an object is fetched from, where its hash has the two
/// characters that name the directory.
pub fn asset_object_url(hash: &str) -> (url: Option<String>)
    ensures
        match url {
            Some(u) => hash@.len() >= 2 && u@ == asset_object_url_spec(hash@),
            None => hash@.len() < 2,
        },
{
    match hash_prefix(hash) {
        Some(prefix) => {
            let mut url = String::from_str("http://resources.download.minecraft.net/");
            url.append(prefix.as_str());
            url.append("/");
            url.append(hash);
            Some(url)
        },
        None => None,
    }
}

/// An asset under its logical name in the legacy virtual layout.
pub fn virtual_asset_path(root: &str, assets: &str, name: &str) -> (path: String)
    ensures
        path@ == virtual_asset_path_spec(root@, assets@, name@),
{
    let mut path = String::from_str(root);
    path.append("/assets/virtual/");
    path.append(assets);
    path.append("/");
    path.append(name);
    path
}

/// An asset under its logical name in the legacy resources layout.
pub fn resource_path(root: &str, name: &str) -> (path: String)
    ensures
        path@ == resource_path_spec(root@, name@),
{
    let mut path = String::from_str(root);
    path.append("/resources/");
    path.append(name);
    path
}

/// The root of all assets.
pub fn assets_root(root: &str) -> (path: String)
    ensures
        path@ == assets_root_spec(root@),
{
    let mut path = String::from_str(root);
    path.append("/assets/");
    path
}

/// The directory of the legacy virtual layout of an asset index.
pub fn game_assets(root: &str, assets: &str) -> (path: String)
    ensures
        path@ == game_assets_spec(root@, assets@),
{
    let mut path = String::from_str(root);
    path.append("/assets/virtual/");
    path.append(assets);
    path.append("/");
    path
}

/// The directory that holds every runtime.
pub fn runtime_root(root: &str) -> (path: String)
    ensures
        path@ == runtime_root_spec(root@),
{
    let mut path = String::from_str(root);
    path.append("/runtime/");
    path
}

/// The directory of the runtime of a major version on a platform.
pub fn runtime_dir(root: &str, major: u8, platform: Platform) -> (path: String)
    ensures
        path@ == runtime_dir_spec(root@, major, platform),
{
    let mut path = String::from_str(root);
    path.append("/runtime/java");
    path.append(decimal_string(major).as_str());
    path.append("-");
    path.append(get_os(platform));
    path.append("-");
    path.append(get_arch(platform));
    path.append("/");
    path
}

/// The `java` executable of a runtime.
pub fn java_executable(root: &str, major: u8, platform: Platform) -> (path: String)
    ensures
        path@ == java_executable_spec(root@, major, platform),
{
    let mut path = runtime_dir(root, major, platform);
    path.append("bin/java");
    path
}

} // verus!
