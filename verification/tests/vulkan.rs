use xr_passthrough::vulkan::{all_formats_known, select_format, Format, ImageUsage, Version};

#[test]
fn formats_have_their_vulkan_numbers() {
    assert_eq!(Format::R8G8B8Unorm.code(), ash::vk::Format::R8G8B8_UNORM.as_raw() as u32);
    assert_eq!(Format::B8G8R8Unorm.code(), ash::vk::Format::B8G8R8_UNORM.as_raw() as u32);
    assert_eq!(Format::R8G8B8A8Unorm.code(), ash::vk::Format::R8G8B8A8_UNORM.as_raw() as u32);
    assert_eq!(Format::R8G8B8A8Srgb.code(), ash::vk::Format::R8G8B8A8_SRGB.as_raw() as u32);
    assert_eq!(Format::B8G8R8A8Unorm.code(), ash::vk::Format::B8G8R8A8_UNORM.as_raw() as u32);
    assert_eq!(Format::B8G8R8A8Srgb.code(), ash::vk::Format::B8G8R8A8_SRGB.as_raw() as u32);
    assert_eq!(Format::D16Unorm.code(), ash::vk::Format::D16_UNORM.as_raw() as u32);
    assert_eq!(Format::D32Sfloat.code(), ash::vk::Format::D32_SFLOAT.as_raw() as u32);
    assert_eq!(Format::D16UnormS8Uint.code(), ash::vk::Format::D16_UNORM_S8_UINT.as_raw() as u32);
    assert_eq!(Format::D24UnormS8Uint.code(), ash::vk::Format::D24_UNORM_S8_UINT.as_raw() as u32);
    assert_eq!(Format::D32SfloatS8Uint.code(), ash::vk::Format::D32_SFLOAT_S8_UINT.as_raw() as u32);
    assert_eq!(
        Format::G8B8G8R8_422Unorm.code(),
        ash::vk::Format::G8B8G8R8_422_UNORM.as_raw() as u32
    );
}

#[test]
fn numbers_of_formats_are_told_from_others() {
    assert!(all_formats_known(&[37, 44, 126]));
    assert!(all_formats_known(&[]));
    assert!(all_formats_known(&[0]));
    assert!(!all_formats_known(&[37, 185]));
    assert!(!all_formats_known(&[999_999]));
}

#[test]
fn best_supported_format_is_selected() {
    let preferred = [Format::R8G8B8A8Unorm, Format::B8G8R8A8Unorm];
    assert_eq!(select_format(&preferred, &[44, 37]), Some(Format::R8G8B8A8Unorm));
    assert_eq!(select_format(&preferred, &[126, 44]), Some(Format::B8G8R8A8Unorm));
    assert_eq!(select_format(&preferred, &[126]), None);
    assert_eq!(select_format(&[], &[37]), None);
}

#[test]
fn no_usage_is_no_usage() {
    let usage = ImageUsage::none();
    assert!(!usage.transfer_src && !usage.transfer_dst && !usage.sampled);
    assert!(!usage.color_attachment && !usage.depth_stencil_attachment);
}

fn version(major: u32, minor: u32, patch: u32) -> Version {
    Version { major, minor, patch }
}

#[test]
fn versions_are_compared_number_by_number() {
    assert!(version(1, 0, 9).is_older_than(version(1, 1, 0)));
    assert!(version(1, 9, 9).is_older_than(version(2, 0, 0)));
    assert!(version(1, 1, 1).is_older_than(version(1, 1, 2)));
    assert!(!version(1, 1, 1).is_older_than(version(1, 1, 1)));
    assert!(!version(1, 2, 0).is_older_than(version(1, 1, 5)));
}

#[test]
fn older_version_is_the_minimum() {
    assert_eq!(version(1, 3, 0).min(version(1, 2, 7)), version(1, 2, 7));
    assert_eq!(version(1, 1, 0).min(version(1, 2, 7)), version(1, 1, 0));
    assert_eq!(Version::major_minor(1, 2), version(1, 2, 0));
}

#[test]
fn versions_are_packed_as_vulkan_does() {
    assert_eq!(version(1, 3, 5).to_packed(), Some(ash::vk::make_api_version(0, 1, 3, 5)));
    assert_eq!(version(0, 1024, 0).to_packed(), None);
    assert_eq!(version(0, 0, 4096).to_packed(), None);
    assert_eq!(version(1024, 0, 0).to_packed(), None);
}
