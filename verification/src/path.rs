//! The layout of the manager's home directory: where each kind of file
//! lives below it. Every function takes the home directory and returns a
//! path; none touches the disk.

use vstd::prelude::*;
use vstd::string::*;
use crate::text::{join, join_spec};

verus! {
pub open spec fn cache_dir_spec(home: Seq<char>) -> Seq<char> {
    join_spec(home, "cache"@)
}

/// Where downloaded indexes and archives are cached.
pub fn cache_dir(home: &str) -> (path: String)
    ensures
        path@ == cache_dir_spec(home@),
{
    join(home, "cache")
}

pub open spec fn tmp_dir_spec(home: Seq<char>) -> Seq<char> {
    join_spec(home, "tmp"@)
}

/// Where temporary files are staged.
pub fn tmp_dir(home: &str) -> (path: String)
    ensures
        path@ == tmp_dir_spec(home@),
{
    join(home, "tmp")
}

pub open spec fn log_dir_spec(home: Seq<char>) -> Seq<char> {
    join_spec(home, "log"@)
}

/// Where logs are written.
pub fn log_dir(home: &str) -> (path: String)
    ensures
        path@ == log_dir_spec(home@),
{
    join(home, "log")
}

pub open spec fn tools_dir_spec(home: Seq<char>) -> Seq<char> {
    join_spec(home, "tools"@)
}

/// The root of everything that is installed.
pub fn tools_dir(home: &str) -> (path: String)
    ensures
        path@ == tools_dir_spec(home@),
{
    join(home, "tools")
}

pub open spec fn shim_dir_spec(home: Seq<char>) -> Seq<char> {
    join_spec(home, "bin"@)
}

/// Where the shims live.
pub fn shim_dir(home: &str) -> (path: String)
    ensures
        path@ == shim_dir_spec(home@),
{
    join(home, "bin")
}

pub open spec fn user_hooks_file_spec(home: Seq<char>) -> Seq<char> {
    join_spec(home, "hooks.json"@)
}

/// The user's hooks file.
pub fn user_hooks_file(home: &str) -> (path: String)
    ensures
        path@ == user_hooks_file_spec(home@),
{
    join(home, "hooks.json")
}

pub open spec fn inventory_dir_spec(home: Seq<char>) -> Seq<char> {
    join_spec(tools_dir_spec(home), "inventory"@)
}

/// The root of the fetched archives.
pub fn inventory_dir(home: &str) -> (path: String)
    ensures
        path@ == inventory_dir_spec(home@),
{
    join(tools_dir(home).as_str(), "inventory")
}

pub open spec fn image_dir_spec(home: Seq<char>) -> Seq<char> {
    join_spec(tools_dir_spec(home), "image"@)
}

/// The root of the unpacked tools.
pub fn image_dir(home: &str) -> (path: String)
    ensures
        path@ == image_dir_spec(home@),
{
    join(tools_dir(home).as_str(), "image")
}

pub open spec fn user_toolchain_dir_spec(home: Seq<char>) -> Seq<char> {
    join_spec(tools_dir_spec(home), "user"@)
}

/// The root of the user's own toolchain settings.
pub fn user_toolchain_dir(home: &str) -> (path: String)
    ensures
        path@ == user_toolchain_dir_spec(home@),
{
    join(tools_dir(home).as_str(), "user")
}

pub open spec fn node_inventory_dir_spec(home: Seq<char>) -> Seq<char> {
    join_spec(inventory_dir_spec(home), "node"@)
}

/// The fetched Node archives.
pub fn node_inventory_dir(home: &str) -> (path: String)
    ensures
        path@ == node_inventory_dir_spec(home@),
{
    join(inventory_dir(home).as_str(), "node")
}

pub open spec fn yarn_inventory_dir_spec(home: Seq<char>) -> Seq<char> {
    join_spec(inventory_dir_spec(home), "yarn"@)
}

/// The fetched Yarn archives.
pub fn yarn_inventory_dir(home: &str) -> (path: String)
    ensures
        path@ == yarn_inventory_dir_spec(home@),
{
    join(inventory_dir(home).as_str(), "yarn")
}

pub open spec fn package_inventory_dir_spec(home: Seq<char>) -> Seq<char> {
    join_spec(inventory_dir_spec(home), "packages"@)
}

/// The fetched package archives.
pub fn package_inventory_dir(home: &str) -> (path: String)
    ensures
        path@ == package_inventory_dir_spec(home@),
{
    join(inventory_dir(home).as_str(), "packages")
}

pub open spec fn node_cache_dir_spec(home: Seq<char>) -> Seq<char> {
    join_spec(cache_dir_spec(home), "node"@)
}

/// The cache of the Node index.
pub fn node_cache_dir(home: &str) -> (path: String)
    ensures
        path@ == node_cache_dir_spec(home@),
{
    join(cache_dir(home).as_str(), "node")
}

pub open spec fn node_index_file_spec(home: Seq<char>) -> Seq<char> {
    join_spec(node_cache_dir_spec(home), "index.json"@)
}

/// The cached Node index.
pub fn node_index_file(home: &str) -> (path: String)
    ensures
        path@ == node_index_file_spec(home@),
{
    join(node_cache_dir(home).as_str(), "index.json")
}

pub open spec fn node_index_expiry_file_spec(home: Seq<char>) -> Seq<char> {
    join_spec(node_cache_dir_spec(home), "index.json.expires"@)
}

/// The expiry stamp of the cached Node index.
pub fn node_index_expiry_file(home: &str) -> (path: String)
    ensures
        path@ == node_index_expiry_file_spec(home@),
{
    join(node_cache_dir(home).as_str(), "index.json.expires")
}

pub open spec fn node_image_root_dir_spec(home: Seq<char>) -> Seq<char> {
    join_spec(image_dir_spec(home), "node"@)
}

/// The root of the unpacked Node versions.
pub fn node_image_root_dir(home: &str) -> (path: String)
    ensures
        path@ == node_image_root_dir_spec(home@),
{
    join(image_dir(home).as_str(), "node")
}

pub open spec fn yarn_image_root_dir_spec(home: Seq<char>) -> Seq<char> {
    join_spec(image_dir_spec(home), "yarn"@)
}

/// The root of the unpacked Yarn versions.
pub fn yarn_image_root_dir(home: &str) -> (path: String)
    ensures
        path@ == yarn_image_root_dir_spec(home@),
{
    join(image_dir(home).as_str(), "yarn")
}

pub open spec fn package_image_root_dir_spec(home: Seq<char>) -> Seq<char> {
    join_spec(image_dir_spec(home), "packages"@)
}

/// The root of the unpacked packages.
pub fn package_image_root_dir(home: &str) -> (path: String)
    ensures
        path@ == package_image_root_dir_spec(home@),
{
    join(image_dir(home).as_str(), "packages")
}

pub open spec fn user_platform_file_spec(home: Seq<char>) -> Seq<char> {
    join_spec(user_toolchain_dir_spec(home), "platform.json"@)
}

/// The file that holds the user's default platform.
pub fn user_platform_file(home: &str) -> (path: String)
    ensures
        path@ == user_platform_file_spec(home@),
{
    join(user_toolchain_dir(home).as_str(), "platform.json")
}

pub open spec fn user_package_dir_spec(home: Seq<char>) -> Seq<char> {
    join_spec(user_toolchain_dir_spec(home), "packages"@)
}

/// The settings of the user's packages.
pub fn user_package_dir(home: &str) -> (path: String)
    ensures
        path@ == user_package_dir_spec(home@),
{
    join(user_toolchain_dir(home).as_str(), "packages")
}

pub open spec fn user_bin_dir_spec(home: Seq<char>) -> Seq<char> {
    join_spec(user_toolchain_dir_spec(home), "bins"@)
}

/// The settings of the user's package executables.
pub fn user_bin_dir(home: &str) -> (path: String)
    ensures
        path@ == user_bin_dir_spec(home@),
{
    join(user_toolchain_dir(home).as_str(), "bins")
}

/// The name that a package's files share: the package's name, a hyphen and
/// its version.
pub open spec fn package_basename_spec(name: Seq<char>, version: Seq<char>) -> Seq<char> {
    name + "-"@ + version
}

pub open spec fn package_distro_file_name_spec(name: Seq<char>, version: Seq<char>) -> Seq<char> {
    package_basename_spec(name, version) + ".tgz"@
}

pub open spec fn package_shasum_file_name_spec(name: Seq<char>, version: Seq<char>) -> Seq<char> {
    package_basename_spec(name, version) + ".shasum"@
}

/// The name that a package's files share.
pub fn package_basename(name: &str, version: &str) -> (base: String)
    ensures
        base@ == package_basename_spec(name@, version@),
{
    String::from_str(name).concat("-").concat(version)
}

/// The file name of a package's archive.
pub fn package_distro_file_name(name: &str, version: &str) -> (file: String)
    ensures
        file@ == package_distro_file_name_spec(name@, version@),
{
    package_basename(name, version).concat(".tgz")
}

/// The file name of the checksum of a package's archive.
pub fn package_shasum_file_name(name: &str, version: &str) -> (file: String)
    ensures
        file@ == package_shasum_file_name_spec(name@, version@),
{
    package_basename(name, version).concat(".shasum")
}

pub open spec fn package_distro_file_spec(home: Seq<char>, name: Seq<char>, version: Seq<char>) -> Seq<char> {
    join_spec(package_inventory_dir_spec(home), package_distro_file_name_spec(name, version))
}

/// A package's fetched archive.
pub fn package_distro_file(home: &str, name: &str, version: &str) -> (path: String)
    ensures
        path@ == package_distro_file_spec(home@, name@, version@),
{
    join(package_inventory_dir(home).as_str(), package_distro_file_name(name, version).as_str())
}

pub open spec fn package_distro_shasum_spec(home: Seq<char>, name: Seq<char>, version: Seq<char>) -> Seq<char> {
    join_spec(package_inventory_dir_spec(home), package_shasum_file_name_spec(name, version))
}

/// The checksum of a package's fetched archive.
pub fn package_distro_shasum(home: &str, name: &str, version: &str) -> (path: String)
    ensures
        path@ == package_distro_shasum_spec(home@, name@, version@),
{
    join(package_inventory_dir(home).as_str(), package_shasum_file_name(name, version).as_str())
}

pub open spec fn node_image_dir_spec(home: Seq<char>, node: Seq<char>, npm: Seq<char>) -> Seq<char> {
    join_spec(join_spec(node_image_root_dir_spec(home), node), npm)
}

/// The unpacked files of one Node version with its npm.
pub fn node_image_dir(home: &str, node: &str, npm: &str) -> (path: String)
    ensures
        path@ == node_image_dir_spec(home@, node@, npm@),
{
    let below = join(node_image_root_dir(home).as_str(), node);
    join(below.as_str(), npm)
}

pub open spec fn yarn_image_dir_spec(home: Seq<char>, version: Seq<char>) -> Seq<char> {
    join_spec(yarn_image_root_dir_spec(home), version)
}

/// The unpacked files of one Yarn version.
pub fn yarn_image_dir(home: &str, version: &str) -> (path: String)
    ensures
        path@ == yarn_image_dir_spec(home@, version@),
{
    join(yarn_image_root_dir(home).as_str(), version)
}

pub open spec fn yarn_image_bin_dir_spec(home: Seq<char>, version: Seq<char>) -> Seq<char> {
    join_spec(join_spec(yarn_image_root_dir_spec(home), version), "bin"@)
}

/// The executables of one Yarn version.
pub fn yarn_image_bin_dir(home: &str, version: &str) -> (path: String)
    ensures
        path@ == yarn_image_bin_dir_spec(home@, version@),
{
    let below = join(yarn_image_root_dir(home).as_str(), version);
    join(below.as_str(), "bin")
}

pub open spec fn package_image_dir_spec(home: Seq<char>, name: Seq<char>, version: Seq<char>) -> Seq<char> {
    join_spec(join_spec(package_image_root_dir_spec(home), name), version)
}

/// The unpacked files of one version of a package.
pub fn package_image_dir(home: &str, name: &str, version: &str) -> (path: String)
    ensures
        path@ == package_image_dir_spec(home@, name@, version@),
{
    let below = join(package_image_root_dir(home).as_str(), name);
    join(below.as_str(), version)
}

pub open spec fn node_version_bin_dir_spec(home: Seq<char>, version: Seq<char>) -> Seq<char> {
    join_spec(join_spec(node_image_root_dir_spec(home), version), "bin"@)
}

/// The executables that one Node version brings.
pub fn node_version_bin_dir(home: &str, version: &str) -> (path: String)
    ensures
        path@ == node_version_bin_dir_spec(home@, version@),
{
    let below = join(node_image_root_dir(home).as_str(), version);
    join(below.as_str(), "bin")
}

pub open spec fn node_version_3p_bin_dir_spec(home: Seq<char>, version: Seq<char>) -> Seq<char> {
    join_spec(join_spec(node_image_root_dir_spec(home), version), "lib/node_modules/.bin"@)
}

/// The executables of the packages installed for one Node version.
pub fn node_version_3p_bin_dir(home: &str, version: &str) -> (path: String)
    ensures
        path@ == node_version_3p_bin_dir_spec(home@, version@),
{
    let below = join(node_image_root_dir(home).as_str(), version);
    join(below.as_str(), "lib/node_modules/.bin")
}

pub open spec fn yarn_version_bin_dir_spec(home: Seq<char>, version: Seq<char>) -> Seq<char> {
    yarn_image_bin_dir_spec(home, version)
}

/// The executables that one Yarn version brings.
pub fn yarn_version_bin_dir(home: &str, version: &str) -> (path: String)
    ensures
        path@ == yarn_version_bin_dir_spec(home@, version@),
{
    yarn_image_bin_dir(home, version)
}

pub open spec fn user_package_config_file_spec(home: Seq<char>, package_name: Seq<char>) -> Seq<char> {
    join_spec(user_package_dir_spec(home), package_name + ".json"@)
}

/// The settings of one of the user's packages.
pub fn user_package_config_file(home: &str, package_name: &str) -> (path: String)
    ensures
        path@ == user_package_config_file_spec(home@, package_name@),
{
    let file = String::from_str(package_name).concat(".json");
    join(user_package_dir(home).as_str(), file.as_str())
}

pub open spec fn user_tool_bin_config_spec(home: Seq<char>, bin_name: Seq<char>) -> Seq<char> {
    join_spec(user_bin_dir_spec(home), bin_name + ".json"@)
}

/// The settings of one of the user's package executables.
pub fn user_tool_bin_config(home: &str, bin_name: &str) -> (path: String)
    ensures
        path@ == user_tool_bin_config_spec(home@, bin_name@),
{
    let file = String::from_str(bin_name).concat(".json");
    join(user_bin_dir(home).as_str(), file.as_str())
}

pub open spec fn node_npm_version_file_spec(home: Seq<char>, version: Seq<char>) -> Seq<char> {
    join_spec(node_inventory_dir_spec(home), "node-v"@ + version + "-npm"@)
}

/// The file that records which npm a Node version brought.
pub fn node_npm_version_file(home: &str, version: &str) -> (path: String)
    ensures
        path@ == node_npm_version_file_spec(home@, version@),
{
    let filename = String::from_str("node-v").concat(version).concat("-npm");
    join(node_inventory_dir(home).as_str(), filename.as_str())
}

/// The directories that a fresh home directory needs, in the order in which
/// they are made.
pub open spec fn volta_dirs_spec(home: Seq<char>) -> Seq<Seq<char>> {
    seq![
        node_cache_dir_spec(home),
        shim_dir_spec(home),
        node_inventory_dir_spec(home),
        package_inventory_dir_spec(home),
        yarn_inventory_dir_spec(home),
        node_image_root_dir_spec(home),
        yarn_image_root_dir_spec(home),
        user_toolchain_dir_spec(home),
        tmp_dir_spec(home),
        log_dir_spec(home),
    ]
}

/// The directories that a fresh home directory needs.
pub fn volta_dirs(home: &str) -> (dirs: Vec<String>)
    ensures
        dirs@.len() == volta_dirs_spec(home@).len(),
        forall|i: int| 0 <= i < dirs@.len() ==> (#[trigger] dirs@[i])@ == volta_dirs_spec(home@)[i],
{
    let mut dirs: Vec<String> = Vec::new();
    dirs.push(node_cache_dir(home));
    dirs.push(shim_dir(home));
    dirs.push(node_inventory_dir(home));
    dirs.push(package_inventory_dir(home));
    dirs.push(yarn_inventory_dir(home));
    dirs.push(node_image_root_dir(home));
    dirs.push(yarn_image_root_dir(home));
    dirs.push(user_toolchain_dir(home));
    dirs.push(tmp_dir(home));
    dirs.push(log_dir(home));
    dirs
}

} // verus!
