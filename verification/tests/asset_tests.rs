use ios_backend::asset::load_file;
use ios_backend::asset::resource_from;
use ios_backend::asset::resource_name;
use ios_backend::asset::BundleRead;
use ios_backend::asset::Error;
use ios_backend::asset::ResourceName;

fn split(path: &str) -> (String, String) {
    let name = resource_name(path);
    (name.resource, name.type_)
}

#[test]
fn path_splits_into_name_and_type() {
    assert_eq!(split("texture.png"), (String::from("texture"), String::from("png")));
}

#[test]
fn directories_stay_in_the_name() {
    assert_eq!(split("assets/ui/font.ttf"), (String::from("assets/ui/font"), String::from("ttf")));
}

#[test]
fn only_the_last_extension_is_the_type() {
    assert_eq!(split("data/level.tar.gz"), (String::from("data/level.tar"), String::from("gz")));
}

#[test]
fn path_without_extension_has_empty_type() {
    assert_eq!(split("README"), (String::from("README"), String::new()));
}

#[test]
fn leading_dot_is_no_extension() {
    assert_eq!(split(".config"), (String::from(".config"), String::new()));
}

#[test]
fn dot_in_a_directory_is_no_extension() {
    assert_eq!(split("v1.2/shader"), (String::from("v1.2/shader"), String::new()));
}

#[test]
fn empty_path_splits_into_empty_parts() {
    assert_eq!(split(""), (String::new(), String::new()));
}

#[test]
fn missing_resource_is_no_such_file() {
    assert_eq!(load_file(BundleRead::NoPath), Err(Error::IOSAssetNoSuchFile));
}

#[test]
fn unreadable_resource_is_no_data() {
    assert_eq!(load_file(BundleRead::NoData), Err(Error::IOSAssetNoData));
}

#[test]
fn data_without_bytes_is_no_data() {
    assert_eq!(load_file(BundleRead::NoBytes), Err(Error::IOSAssetNoData));
}

#[test]
fn contents_come_back_unmodified() {
    let bytes = vec![0u8, 255, 10, 13, 0, 1];
    assert_eq!(load_file(BundleRead::Bytes(bytes.clone())), Ok(bytes));
}

#[test]
fn empty_resource_is_no_data() {
    assert_eq!(load_file(BundleRead::Bytes(Vec::new())), Err(Error::IOSAssetNoData));
}

#[test]
fn single_byte_comes_back() {
    assert_eq!(load_file(BundleRead::Bytes(vec![0u8])), Ok(vec![0u8]));
}

#[test]
fn resource_from_stem_and_extension() {
    let name = resource_from(String::from("assets/tex"), Some(String::from("png")));
    assert_eq!(name, ResourceName { resource: String::from("assets/tex"), type_: String::from("png") });
}

#[test]
fn resource_without_extension_has_empty_type() {
    let name = resource_from(String::from("README"), None);
    assert_eq!(name, ResourceName { resource: String::from("README"), type_: String::new() });
}

#[test]
fn resource_with_empty_extension_has_empty_type() {
    let name = resource_from(String::from("name"), Some(String::new()));
    assert_eq!(name, ResourceName { resource: String::from("name"), type_: String::new() });
}

#[test]
fn trailing_dot_is_an_empty_extension() {
    assert_eq!(split("name."), (String::from("name"), String::new()));
}
