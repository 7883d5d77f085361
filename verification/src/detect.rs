//! Routing a file to its detector: package manifests by file name, then
//! certificates and keys, source code, binaries and configuration files by
//! extension, PEM text by its header, and the binary string search for the rest.
use vstd::prelude::*;
use crate::binary::{binary_assets, scan_binary, MAX_BINARY_BYTES};
use crate::certs::{cert_file_assets, looks_like_pem_pub, pem_header};
use crate::config::{config_result, result_view, scan_config, DetectError, MAX_CONFIG_BYTES};
use crate::manifest::{manifest_result, scan_manifest, MAX_MANIFEST_BYTES};
use crate::model::{AssetView, CryptoAsset};
use crate::paths::{extension_lower, file_name, file_name_of, lower_extension};
use crate::patterns::utf8_lossy_of;
use crate::source::{scan_source, source_text_assets, MAX_SOURCE_BYTES};
use crate::table::{contains_str, strs_view};
use crate::text::chars_of;

verus! {

/// File names of package manifests.
pub open spec fn manifest_filenames() -> Seq<Seq<char>> {
    seq![
        "Cargo.toml"@,
        "package.json"@,
        "requirements.txt"@,
        "Pipfile"@,
        "go.mod"@,
        "pom.xml"@,
        "build.gradle"@,
        "build.gradle.kts"@,
    ]
}

/// Extensions of certificate and key files.
pub open spec fn cert_extensions() -> Seq<Seq<char>> {
    seq!["pem"@, "crt"@, "cer"@, "key"@, "pub"@, "p7b"@, "p7c"@, "der"@, "p12"@, "pfx"@]
}

/// Extensions of source files.
pub open spec fn source_extensions() -> Seq<Seq<char>> {
    seq![
        "c"@, "cpp"@, "cc"@, "cxx"@, "h"@, "hpp"@, "hxx"@, "py"@, "pyw"@, "java"@, "kt"@, "kts"@,
        "go"@, "rs"@, "js"@, "mjs"@, "ts"@, "jsx"@, "tsx"@, "rb"@, "php"@, "swift"@, "cs"@,
    ]
}

/// Extensions of binaries.
pub open spec fn binary_extensions() -> Seq<Seq<char>> {
    seq!["so"@, "dylib"@, "dll"@, "exe"@, "o"@, "a"@, "lib"@, "wasm"@, "elf"@]
}

/// Extensions of configuration files.
pub open spec fn config_extensions() -> Seq<Seq<char>> {
    seq!["yaml"@, "yml"@, "toml"@, "json"@, "ini"@, "cfg"@, "conf"@, "properties"@, "env"@, "tf"@]
}

pub open spec fn source_result(path: Seq<char>, size: u64, bytes: Seq<u8>) -> Seq<AssetView> {
    if size > MAX_SOURCE_BYTES {
        seq![]
    } else {
        source_text_assets(utf8_lossy_of(bytes), lower_extension(path), path)
    }
}

pub open spec fn binary_result(path: Seq<char>, size: u64, bytes: Seq<u8>) -> Seq<AssetView> {
    if size > MAX_BINARY_BYTES {
        seq![]
    } else {
        binary_assets(bytes, path)
    }
}

/// What detecting assets in a file (path, size, contents) gives.
pub open spec fn detect_result(path: Seq<char>, size: u64, bytes: Seq<u8>) -> Result<Seq<AssetView>, DetectError> {
    let ext = lower_extension(path);
    if file_name_of(path) matches Some(n) && manifest_filenames().contains(n) {
        manifest_result(path, size, bytes)
    } else if cert_extensions().contains(ext) {
        Ok(cert_file_assets(path, bytes))
    } else if source_extensions().contains(ext) {
        Ok(source_result(path, size, bytes))
    } else if binary_extensions().contains(ext) {
        Ok(binary_result(path, size, bytes))
    } else if config_extensions().contains(ext) {
        config_result(path, size, bytes)
    } else if pem_header(bytes) {
        Ok(cert_file_assets(path, bytes))
    } else {
        Ok(binary_result(path, size, bytes))
    }
}

/// Whether what detection finds in a file of this path and size depends on
/// its contents: not for a file whose scanner passes over files of its size.
pub open spec fn contents_matter(path: Seq<char>, size: u64) -> bool {
    let ext = lower_extension(path);
    if file_name_of(path) matches Some(n) && manifest_filenames().contains(n) {
        size <= MAX_MANIFEST_BYTES
    } else if cert_extensions().contains(ext) {
        true
    } else if source_extensions().contains(ext) {
        size <= MAX_SOURCE_BYTES
    } else if binary_extensions().contains(ext) {
        size <= MAX_BINARY_BYTES
    } else if config_extensions().contains(ext) {
        size <= MAX_CONFIG_BYTES
    } else {
        true
    }
}

fn manifest_filename_list() -> (t: Vec<&'static str>)
    ensures
        strs_view(t@) == manifest_filenames(),
{
    let t: Vec<&'static str> = vec![
        "Cargo.toml",
        "package.json",
        "requirements.txt",
        "Pipfile",
        "go.mod",
        "pom.xml",
        "build.gradle",
        "build.gradle.kts",
    ];
    assert(strs_view(t@) =~= manifest_filenames());
    t
}

fn cert_extension_list() -> (t: Vec<&'static str>)
    ensures
        strs_view(t@) == cert_extensions(),
{
    let t: Vec<&'static str> = vec!["pem", "crt", "cer", "key", "pub", "p7b", "p7c", "der", "p12", "pfx"];
    assert(strs_view(t@) =~= cert_extensions());
    t
}

fn source_extension_list() -> (t: Vec<&'static str>)
    ensures
        strs_view(t@) == source_extensions(),
{
    let t: Vec<&'static str> = vec![
        "c", "cpp", "cc", "cxx", "h", "hpp", "hxx", "py", "pyw", "java", "kt", "kts", "go", "rs", "js",
        "mjs", "ts", "jsx", "tsx", "rb", "php", "swift", "cs",
    ];
    assert(strs_view(t@) =~= source_extensions());
    t
}

fn binary_extension_list() -> (t: Vec<&'static str>)
    ensures
        strs_view(t@) == binary_extensions(),
{
    let t: Vec<&'static str> = vec!["so", "dylib", "dll", "exe", "o", "a", "lib", "wasm", "elf"];
    assert(strs_view(t@) =~= binary_extensions());
    t
}

fn config_extension_list() -> (t: Vec<&'static str>)
    ensures
        strs_view(t@) == config_extensions(),
{
    let t: Vec<&'static str> = vec![
        "yaml", "yml", "toml", "json", "ini", "cfg", "conf", "properties", "env", "tf",
    ];
    assert(strs_view(t@) =~= config_extensions());
    t
}

fn ok_assets(v: Vec<CryptoAsset>) -> (r: Result<Vec<CryptoAsset>, DetectError>)
    ensures
        result_view(r) == Ok::<Seq<AssetView>, DetectError>(v.deep_view()),
{
    Ok(v)
}

/// Whether the contents of a file of this path and size need to be read: when
/// they do not, detection finds nothing in it whatever they are.
pub fn needs_contents(path: &str, size: u64) -> (b: bool)
    ensures
        b == contents_matter(path@, size),
        !b ==> forall|bytes: Seq<u8>| #[trigger] detect_result(path@, size, bytes) == Ok::<Seq<AssetView>, DetectError>(seq![]),
{
    if let Some(name) = file_name(path) {
        if contains_str(&manifest_filename_list(), &chars_of(name.as_str())) {
            return size <= MAX_MANIFEST_BYTES;
        }
    }
    let ext = extension_lower(path);
    if contains_str(&cert_extension_list(), &ext) {
        return true;
    }
    if contains_str(&source_extension_list(), &ext) {
        return size <= MAX_SOURCE_BYTES;
    }
    if contains_str(&binary_extension_list(), &ext) {
        return size <= MAX_BINARY_BYTES;
    }
    if contains_str(&config_extension_list(), &ext) {
        return size <= MAX_CONFIG_BYTES;
    }
    true
}

/// Detects the crypto assets in one file, given its path, its size in bytes
/// and its contents, dispatching to the scanner that the file name, the
/// extension or (for other files) a PEM header calls for; every other file gets
/// the binary string search.
pub fn detect_in_file(path: &str, size: u64, bytes: &[u8]) -> (r: Result<Vec<CryptoAsset>, DetectError>)
    ensures
        result_view(r) == detect_result(path@, size, bytes@),
{
    if let Some(name) = file_name(path) {
        if contains_str(&manifest_filename_list(), &chars_of(name.as_str())) {
            return scan_manifest(path, size, bytes);
        }
    }
    let ext = extension_lower(path);
    if contains_str(&cert_extension_list(), &ext) {
        return ok_assets(crate::certs::detect_in_file(path, bytes));
    }
    if contains_str(&source_extension_list(), &ext) {
        return ok_assets(scan_source(path, size, bytes));
    }
    if contains_str(&binary_extension_list(), &ext) {
        return ok_assets(scan_binary(path, size, bytes));
    }
    if contains_str(&config_extension_list(), &ext) {
        return scan_config(path, size, bytes);
    }
    if looks_like_pem_pub(bytes) {
        return ok_assets(crate::certs::detect_in_file(path, bytes));
    }
    ok_assets(scan_binary(path, size, bytes))
}

} // verus!
