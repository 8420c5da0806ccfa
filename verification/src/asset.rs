//! The bundle asset loader: which resource a path asks for, and what a
//! load attempt answers.

use vstd::prelude::*;

verus! {

/// Why a load attempt failed.
#[derive(Clone, Copy, Debug, PartialEq, Eq, Structural)]
pub enum Error {
    /// The bundle holds no resource of that name and type.
    IOSAssetNoSuchFile,
    /// The resource is there, but it gave no bytes: it could not be read,
    /// or it is empty.
    IOSAssetNoData,
}

/// How far the bundle got with one resource.
#[derive(Debug, PartialEq, Eq)]
pub enum BundleRead {
    /// The bundle knows no path for the resource.
    NoPath,
    /// The file at the resource's path gave no data object.
    NoData,
    /// The data object has no byte buffer.
    NoBytes,
    /// The bytes that were read from the resource.
    Bytes(Vec<u8>),
}

/// A bundle resource is looked up by name and type.
#[derive(Debug, PartialEq, Eq)]
pub struct ResourceName {
    /// The path without its extension.
    pub resource: String,
    /// The extension without its dot; empty if the path has none.
    pub type_: String,
}

/// The path that `std::path::Path::with_extension` gives for a path and the
/// empty extension, under the path rules of the platform the library is
/// built for.
pub uninterp spec fn path_without_extension(path: Seq<char>) -> Seq<char>;

/// The extension that `std::path::Path::extension` finds in a path, under
/// the path rules of the platform the library is built for.
pub uninterp spec fn path_extension(path: Seq<char>) -> Option<Seq<char>>;

/// Calls `std::path::Path::with_extension` on the path, with the empty
/// extension, and gives the resulting path back as a string. The contract
/// only names the result.
#[verifier::external_body]
fn without_extension(path: &str) -> (stem: String)
    ensures
        stem@ == path_without_extension(path@),
{
    std::path::Path::new(path).with_extension("").to_string_lossy().into_owned()
}

/// Calls `std::path::Path::extension` on the path, and gives the extension
/// back as a string where there is one. The contract only names the result.
#[verifier::external_body]
fn extension(path: &str) -> (found: Option<String>)
    ensures
        match found {
            Some(extension) => path_extension(path@) == Some(extension@),
            None => path_extension(path@).is_none(),
        },
{
    std::path::Path::new(path).extension().map(|found| found.to_string_lossy().into_owned())
}

/// The resource that a path asks for: as its type the path's extension, or
/// the empty string where it has none, and as its name the path without the
/// extension.
pub open spec fn resource_of(path: Seq<char>) -> (Seq<char>, Seq<char>) {
    (path_without_extension(path), type_of(path_extension(path)))
}

/// The resource type that stands for an extension: the extension itself,
/// or the empty string where there is none.
pub open spec fn type_of(extension: Option<Seq<char>>) -> Seq<char> {
    match extension {
        Some(extension) => extension,
        None => Seq::empty(),
    }
}

/// What a load attempt answers: the contents where the bundle gave any,
/// the missing-file error where it knows no such resource, and the no-data
/// error where the resource could not be read or is empty.
pub open spec fn response_of(read: BundleRead) -> Result<Vec<u8>, Error> {
    match read {
        BundleRead::NoPath => Err(Error::IOSAssetNoSuchFile),
        BundleRead::NoData => Err(Error::IOSAssetNoData),
        BundleRead::NoBytes => Err(Error::IOSAssetNoData),
        BundleRead::Bytes(bytes) => if bytes@.len() == 0 {
            Err(Error::IOSAssetNoData)
        } else {
            Ok(bytes)
        },
    }
}

/// The resource made of a path's two parts: the path without its extension
/// as the name, and the extension, if there is one, as the type. Without an
/// extension the type is the empty string.
pub fn resource_from(stem: String, extension: Option<String>) -> (name: ResourceName)
    ensures
        name.resource@ == stem@,
        name.type_@ == type_of(
            match extension {
                Some(extension) => Some(extension@),
                None => None,
            },
        ),
{
    let type_ = match extension {
        Some(extension) => extension,
        None => String::new(),
    };
    ResourceName { resource: stem, type_ }
}

/// Splits a path into the name and the type under which the bundle is
/// asked for the resource.
pub fn resource_name(path: &str) -> (name: ResourceName)
    ensures
        (name.resource@, name.type_@) == resource_of(path@),
{
    let stem = without_extension(path);
    let extension = extension(path);
    resource_from(stem, extension)
}

/// The answer owed to the caller of a load, from what the bundle gave.
/// Contents come back as they were read, byte for byte; a resource without
/// contents fails like one that cannot be read.
pub fn load_file(read: BundleRead) -> (response: Result<Vec<u8>, Error>)
    ensures
        response == response_of(read),
{
    match read {
        BundleRead::NoPath => Err(Error::IOSAssetNoSuchFile),
        BundleRead::NoData => Err(Error::IOSAssetNoData),
        BundleRead::NoBytes => Err(Error::IOSAssetNoData),
        BundleRead::Bytes(bytes) => {
            if bytes.len() == 0 {
                Err(Error::IOSAssetNoData)
            } else {
                Ok(bytes)
            }
        },
    }
}

} // verus!
