use compute_shader::api::cl::device::{format_from, image_format_of, protection_to_mem_flags};
use compute_shader::api::gl::queue::access_of;
use compute_shader::backend::Backend;
use compute_shader::buffer::{BufferData, HostAllocatedData, Protection};
use compute_shader::error::{message_from_log, Error};
use compute_shader::image::{Format, Size2D};
use compute_shader::instance::{Instance, ShadingLanguage};
use compute_shader::queue::check_groups;

#[test]
fn gl_values_of_formats() {
    assert_eq!(Format::R8.gl_format(), 0x1903);
    assert_eq!(Format::R32F.gl_format(), 0x1903);
    assert_eq!(Format::RGBA8.gl_format(), 0x1908);
    assert_eq!(Format::R8.gl_type(), 0x1401);
    assert_eq!(Format::RGBA8.gl_type(), 0x1401);
    assert_eq!(Format::R32F.gl_type(), 0x1406);
    assert_eq!(Format::R8.gl_internal_format(), 0x8229);
    assert_eq!(Format::RGBA8.gl_internal_format(), 0x8058);
    assert_eq!(Format::R32F.gl_internal_format(), 0x822E);
}

#[test]
fn formats_are_found_again_from_their_gl_values() {
    for format in [Format::R8, Format::RGBA8, Format::R32F] {
        assert_eq!(Format::from_gl_internal_format(format.gl_internal_format()), Some(format));
    }
    assert_eq!(Format::from_gl_internal_format(0), None);
    assert_eq!(Format::from_gl_internal_format(0x1903), None);
}

#[test]
fn formats_are_found_again_from_their_cl_values() {
    for format in [Format::R8, Format::RGBA8, Format::R32F] {
        let (order, data_type) = image_format_of(format);
        assert_eq!(format_from(order, data_type), Some(format));
    }
    assert_eq!(image_format_of(Format::R8), (0x10B0, 0x10D2));
    assert_eq!(image_format_of(Format::RGBA8), (0x10B5, 0x10D2));
    assert_eq!(image_format_of(Format::R32F), (0x10B0, 0x10DE));
    assert_eq!(format_from(0x10B5, 0x10DE), None);
    assert_eq!(format_from(0, 0), None);
}

#[test]
fn bytes_of_a_pixel() {
    assert_eq!(Format::R8.bytes_per_element(), 1);
    assert_eq!(Format::RGBA8.bytes_per_element(), 4);
    assert_eq!(Format::R32F.bytes_per_element(), 4);
}

#[test]
fn memory_flags_of_protections() {
    assert_eq!(protection_to_mem_flags(Protection::ReadWrite), 1);
    assert_eq!(protection_to_mem_flags(Protection::WriteOnly), 2);
    assert_eq!(protection_to_mem_flags(Protection::ReadOnly), 4);
}

#[test]
fn access_of_protections() {
    assert_eq!(access_of(Protection::ReadOnly), 0x88B8);
    assert_eq!(access_of(Protection::WriteOnly), 0x88B9);
    assert_eq!(access_of(Protection::ReadWrite), 0x88BA);
}

#[test]
fn protections_and_their_numbers() {
    assert_eq!(Protection::ReadOnly.to_index(), 0);
    assert_eq!(Protection::WriteOnly.to_index(), 1);
    assert_eq!(Protection::ReadWrite.to_index(), 2);
    for protection in [Protection::ReadOnly, Protection::WriteOnly, Protection::ReadWrite] {
        assert_eq!(Protection::from_index(protection.to_index()), protection);
    }
    assert_eq!(Protection::from_index(3), Protection::ReadWrite);
    assert_eq!(Protection::from_index(usize::MAX), Protection::ReadWrite);
}

#[test]
fn host_data_keeps_its_bytes() {
    let bytes = [1u8, 2, 3, 4, 5];
    let data = HostAllocatedData::new(&bytes);
    assert_eq!(data.size(), 5);
    assert_eq!(data.as_slice(), &bytes);
    let empty = HostAllocatedData::new(&[]);
    assert_eq!(empty.size(), 0);
    match BufferData::HostAllocated(data) {
        BufferData::HostAllocated(inner) => assert_eq!(inner.as_slice(), &bytes),
        BufferData::Uninitialized(_) => panic!("the data were given"),
    }
}

#[test]
fn size_keeps_its_extents() {
    let size = Size2D::new(640, 480);
    assert_eq!(size.width, 640);
    assert_eq!(size.height, 480);
}

#[test]
fn message_of_a_log() {
    assert_eq!(message_from_log(b"error: missing ';'".to_vec()), "error: missing ';'");
    assert_eq!(message_from_log(Vec::new()), "");
    assert_eq!(message_from_log(vec![b'o', b'k', 0, 0]), "ok");
    assert_eq!(message_from_log(vec![b'o', 0, b'k', 0]), "o");
    assert_eq!(message_from_log(vec![0, b'o', b'k']), "");
    assert_eq!(message_from_log(vec![b'o', b'k', 0, 0xff]), "ok");
    assert_eq!(message_from_log("gr\u{fc}n".as_bytes().to_vec()), "gr\u{fc}n");
}

#[test]
fn message_of_a_log_that_is_no_text() {
    assert_eq!(message_from_log(vec![0xff, 0xfe, b'a']), "");
    assert_eq!(message_from_log(vec![b'a', 0xc3]), "");
}

#[test]
fn instance_reports_the_language_of_its_backend() {
    let instance = Instance::new(Backend::Cl).unwrap();
    assert_eq!(instance.shading_language(), ShadingLanguage::Cl);
    assert_eq!(instance.data(), 0);
    let instance = Instance::new(Backend::Gl).unwrap();
    assert_eq!(instance.shading_language(), ShadingLanguage::Glsl);
    assert_eq!(instance.data(), 0);
}

#[test]
fn grids_that_can_be_dispatched() {
    assert!(check_groups(&[1]));
    assert!(check_groups(&[16, 16]));
    assert!(check_groups(&[4, 5, 6]));
    assert!(!check_groups(&[]));
    assert!(!check_groups(&[1, 2, 3, 4]));
    assert!(!check_groups(&[0]));
    assert!(!check_groups(&[8, 0, 8]));
}

#[test]
fn errors_can_be_told_apart() {
    let failed = Error::Failed;
    let compile = Error::CompileFailed("log".to_string());
    let link = Error::LinkFailed("log".to_string());
    assert!(matches!(failed, Error::Failed));
    assert!(matches!(compile, Error::CompileFailed(ref message) if message == "log"));
    assert!(matches!(link, Error::LinkFailed(ref message) if message == "log"));
}
