use std::cell::RefCell;

use base_pe_coff_lib::context::finish_read;
use base_pe_coff_lib::headers::{
    classify_image, decode_headers, decode_te_header, ImageInfo, OptionalFields, PeHeaders,
};
use base_pe_coff_lib::{
    read_outcome, ContextFields, ImageReader, MemoryImage, PeCoffImageError, PeCoffLoaderImageContext,
    RawImageContext,
};
use r_efi::efi::Status;

struct ScriptedReader {
    responses: RefCell<Vec<(Status, usize)>>,
}

impl ImageReader for ScriptedReader {
    fn read_file(&self, _file_offset: usize, read_size: &mut usize, _buffer: &mut [u8]) -> Status {
        let (status, size) = self.responses.borrow_mut().remove(0);
        *read_size = size;
        status
    }
}

fn scripted(responses: Vec<(Status, usize)>) -> ScriptedReader {
    ScriptedReader { responses: RefCell::new(responses) }
}

const IMAGE_LEN: usize = 0x200;

fn put16(b: &mut [u8], at: usize, v: u16) {
    b[at..at + 2].copy_from_slice(&v.to_le_bytes());
}

fn put32(b: &mut [u8], at: usize, v: u32) {
    b[at..at + 4].copy_from_slice(&v.to_le_bytes());
}

/// A PE32+ image with no sections and a full optional header.
fn pe_image(machine: u16, subsystem: u16, characteristics: u16) -> Vec<u8> {
    let mut b = vec![0u8; IMAGE_LEN];
    put16(&mut b, 0, 0x5a4d);
    put32(&mut b, 0x3c, 0x40);
    put32(&mut b, 0x40, 0x4550);
    let coff = 0x44;
    put16(&mut b, coff, machine);
    put16(&mut b, coff + 16, 240);
    put16(&mut b, coff + 18, characteristics);
    let opt = coff + 20;
    put16(&mut b, opt, 0x20b);
    put32(&mut b, opt + 16, 0x1000);
    let win = opt + 24;
    put32(&mut b, win, 0x1000_0000);
    put32(&mut b, win + 8, 0x1000);
    put32(&mut b, win + 12, 0x200);
    put32(&mut b, win + 32, 0x2000);
    put32(&mut b, win + 36, 0x200);
    put16(&mut b, win + 44, subsystem);
    put32(&mut b, win + 84, 16);
    b
}

fn context_over(image: Vec<u8>, image_size: u64) -> PeCoffLoaderImageContext<MemoryImage> {
    let fields = ContextFields { image_size, ..ContextFields::default() };
    let raw = RawImageContext { fields, image_read: Some(MemoryImage::new(image)), image_error: 0 };
    match PeCoffLoaderImageContext::from_raw(Some(raw)) {
        Ok(ctx) => ctx,
        Err(_) => panic!("a context with a read source should validate"),
    }
}

fn classify_bytes(image: Vec<u8>, image_size: u64) -> (Result<(), PeCoffImageError>, PeCoffLoaderImageContext<MemoryImage>) {
    let mut ctx = context_over(image, image_size);
    let r = ctx.update_info_from_headers();
    (r, ctx)
}

#[test]
fn zeroed_context_with_failing_callback_validates_then_fails_to_read() {
    let raw = RawImageContext {
        fields: ContextFields::default(),
        image_read: Some(scripted(vec![(Status::INVALID_PARAMETER, 10)])),
        image_error: 0,
    };
    let ctx = PeCoffLoaderImageContext::from_raw(Some(raw)).expect("validator only checks the callback");
    assert_eq!(ctx.read_image(0, 10), Err(PeCoffImageError::ImageErrorImageRead));
}

#[test]
fn over_long_report_is_a_read_failure() {
    let ctx = PeCoffLoaderImageContext::new(scripted(vec![(Status::SUCCESS, 20)]));
    assert_eq!(ctx.read_image(0, 10), Err(PeCoffImageError::ImageErrorImageRead));
    let ctx = PeCoffLoaderImageContext::new(scripted(vec![(Status::SUCCESS, 11)]));
    let mut buffer = [0u8; 10];
    assert_eq!(ctx.read_image_into(0, &mut buffer), Err(PeCoffImageError::ImageErrorImageRead));
}

#[test]
fn warning_status_is_a_read_failure() {
    let ctx = PeCoffLoaderImageContext::new(scripted(vec![(Status::WARN_STALE_DATA, 4)]));
    assert_eq!(ctx.read_image(0, 10), Err(PeCoffImageError::ImageErrorImageRead));
}

#[test]
fn short_and_empty_reads_keep_the_reported_count() {
    let ctx = PeCoffLoaderImageContext::new(scripted(vec![(Status::SUCCESS, 3), (Status::SUCCESS, 0)]));
    assert_eq!(ctx.read_image(0, 10).unwrap().len(), 3);
    assert_eq!(ctx.read_image(0, 10).unwrap().len(), 0);
}

#[test]
fn read_outcome_values() {
    assert_eq!(read_outcome(0, 5, 10), Ok(5));
    assert_eq!(read_outcome(0, 10, 10), Ok(10));
    assert_eq!(read_outcome(0, 11, 10), Err(PeCoffImageError::ImageErrorImageRead));
    assert_eq!(
        read_outcome(Status::INVALID_PARAMETER.as_usize(), 5, 10),
        Err(PeCoffImageError::ImageErrorImageRead)
    );
}

#[test]
fn memory_image_copies_what_it_holds() {
    let ctx = PeCoffLoaderImageContext::new(MemoryImage::new(vec![1, 2, 3, 4, 5]));
    assert_eq!(ctx.read_image(1, 3), Ok(vec![2, 3, 4]));
    assert_eq!(ctx.read_image(3, 10), Ok(vec![4, 5]));
    assert_eq!(ctx.read_image(9, 4), Ok(vec![]));
}

#[test]
fn error_codes_are_stable() {
    assert_eq!(PeCoffImageError::ImageErrorSuccess.code(), 0);
    assert_eq!(PeCoffImageError::ImageErrorImageRead.code(), 1);
    assert_eq!(PeCoffImageError::ImageErrorInvalidImageSize.code(), 6);
    assert_eq!(PeCoffImageError::ImageErrorUnsupported.code(), 11);
}

#[test]
fn decoder_reports_header_fields() {
    let h = decode_headers(&pe_image(0xaa64, 12, 0x23)).expect("well-formed image");
    assert_eq!(h.machine, 0xaa64);
    assert_eq!(h.characteristics, 0x23);
    let o = h.optional.expect("optional header present");
    assert_eq!(o.subsystem, 12);
    assert_eq!(o.section_alignment, 0x1000);
    assert_eq!(o.size_of_headers, 0x200);
    assert_eq!(o.debug_directory_rva, None);
}

#[test]
fn decoder_rejects_a_cut_optional_header() {
    let image = pe_image(0x8664, 11, 0x22);
    assert_eq!(decode_headers(&image[..0x60]), Err(PeCoffImageError::ImageErrorUnsupported));
}

#[test]
fn classification_records_machine_and_type() {
    let (r, ctx) = classify_bytes(pe_image(0x8664, 11, 0x22), IMAGE_LEN as u64);
    assert_eq!(r, Ok(()));
    assert_eq!(ctx.image_error(), PeCoffImageError::ImageErrorSuccess);
    let f = ctx.fields();
    assert_eq!(f.machine, 0x8664);
    assert_eq!(f.image_type, 11);
    assert_eq!(f.pe_coff_header_offset, 0x40);
    assert_eq!(f.section_alignment, 0x1000);
    assert_eq!(f.size_of_headers, 0x200);
    assert!(!f.relocations_stripped);
    assert!(!f.is_te_image);
    assert_eq!(f.debug_directory_entry_rva, 0);
    assert_eq!(f.image_size, IMAGE_LEN as u64);
    assert_eq!(ctx.into_raw().image_error, 0);
}

#[test]
fn stripped_relocations_are_recorded() {
    let (r, ctx) = classify_bytes(pe_image(0x014c, 10, 0x0103), IMAGE_LEN as u64);
    assert_eq!(r, Ok(()));
    assert!(ctx.fields().relocations_stripped);
    assert_eq!(ctx.fields().machine, 0x014c);
}

fn expect_failure(image: Vec<u8>, image_size: u64, e: PeCoffImageError) {
    let (r, ctx) = classify_bytes(image, image_size);
    assert_eq!(r, Err(e));
    assert_eq!(ctx.image_error(), e);
    assert_eq!(ctx.fields().machine, 0);
    assert_eq!(ctx.into_raw().image_error, e.code());
}

#[test]
fn zero_image_size_is_a_size_error() {
    expect_failure(pe_image(0x8664, 11, 0x22), 0, PeCoffImageError::ImageErrorInvalidImageSize);
}

#[test]
fn image_shorter_than_dos_header_is_a_read_error() {
    let image = pe_image(0x8664, 11, 0x22)[..32].to_vec();
    expect_failure(image, 32, PeCoffImageError::ImageErrorImageRead);
}

#[test]
fn short_read_of_the_image_is_a_read_error() {
    expect_failure(pe_image(0x8664, 11, 0x22), 0x300, PeCoffImageError::ImageErrorImageRead);
}

#[test]
fn dos_signature_mismatch_is_a_signature_error() {
    let mut image = pe_image(0x8664, 11, 0x22);
    image[0] = b'X';
    expect_failure(image, IMAGE_LEN as u64, PeCoffImageError::ImageErrorInvalidPeHeaderSignature);
}

#[test]
fn pe_signature_mismatch_is_a_signature_error() {
    let mut image = pe_image(0x8664, 11, 0x22);
    image[0x41] = b'X';
    expect_failure(image, IMAGE_LEN as u64, PeCoffImageError::ImageErrorInvalidPeHeaderSignature);
}

#[test]
fn pe_pointer_outside_the_image_is_a_size_error() {
    let mut image = pe_image(0x8664, 11, 0x22);
    put32(&mut image, 0x3c, 0x1f0);
    expect_failure(image, IMAGE_LEN as u64, PeCoffImageError::ImageErrorInvalidImageSize);
}

#[test]
fn unknown_machine_is_rejected() {
    expect_failure(pe_image(0x1234, 11, 0x22), IMAGE_LEN as u64, PeCoffImageError::ImageErrorInvalidMachineType);
}

#[test]
fn unknown_subsystem_is_rejected() {
    expect_failure(pe_image(0x8664, 2, 0x22), IMAGE_LEN as u64, PeCoffImageError::ImageErrorInvalidSubsystem);
}

#[test]
fn decoder_rejection_is_unsupported() {
    let image = pe_image(0x8664, 11, 0x22)[..0x60].to_vec();
    expect_failure(image, 0x60, PeCoffImageError::ImageErrorUnsupported);
}

#[test]
fn headers_larger_than_the_image_are_a_size_error() {
    let mut image = pe_image(0x8664, 11, 0x22);
    put32(&mut image, 0x58 + 24 + 36, 0x400);
    expect_failure(image, IMAGE_LEN as u64, PeCoffImageError::ImageErrorInvalidImageSize);
}

#[test]
fn zero_section_alignment_is_rejected() {
    let mut image = pe_image(0x8664, 11, 0x22);
    put32(&mut image, 0x58 + 24 + 8, 0);
    expect_failure(image, IMAGE_LEN as u64, PeCoffImageError::ImageErrorInvalidSectionAlignment);
}

#[test]
fn missing_optional_header_is_unsupported() {
    let image = pe_image(0x8664, 11, 0x22);
    let h = PeHeaders { machine: 0x8664, characteristics: 0, optional: None };
    assert_eq!(classify_image(&image, IMAGE_LEN as u64, Ok(h)), Err(PeCoffImageError::ImageErrorUnsupported));
}

#[test]
fn classify_image_uses_the_given_headers() {
    let image = pe_image(0x8664, 11, 0x22);
    let o = OptionalFields { subsystem: 13, section_alignment: 0x20, size_of_headers: 0x100, debug_directory_rva: Some(0x180) };
    let h = PeHeaders { machine: 0x5064, characteristics: 1, optional: Some(o) };
    let expected = ImageInfo {
        machine: 0x5064,
        image_type: 13,
        pe_coff_header_offset: 0x40,
        section_alignment: 0x20,
        size_of_headers: 0x100,
        relocations_stripped: true,
        is_te_image: false,
        debug_directory_entry_rva: 0x180,
    };
    assert_eq!(classify_image(&image, IMAGE_LEN as u64, Ok(h)), Ok(expected));
    assert_eq!(
        classify_image(&image, IMAGE_LEN as u64, Err(PeCoffImageError::ImageErrorUnsupported)),
        Err(PeCoffImageError::ImageErrorUnsupported)
    );
}

/// A TE image: the 40-byte TE header and no sections.
fn te_image(machine: u16, subsystem: u8, stripped_size: u16) -> Vec<u8> {
    let mut b = vec![0u8; 0x80];
    put16(&mut b, 0, 0x5a56);
    put16(&mut b, 2, machine);
    b[4] = 0;
    b[5] = subsystem;
    put16(&mut b, 6, stripped_size);
    put32(&mut b, 8, 0x400);
    b
}

#[test]
fn te_image_is_classified_as_te() {
    let (r, ctx) = classify_bytes(te_image(0xaa64, 12, 0x1c0), 0x80);
    assert_eq!(r, Ok(()));
    let f = ctx.fields();
    assert!(f.is_te_image);
    assert_eq!(f.machine, 0xaa64);
    assert_eq!(f.image_type, 12);
    assert_eq!(f.pe_coff_header_offset, 0);
    assert_eq!(f.section_alignment, 0x1000);
    assert_eq!(f.size_of_headers, 40);
    assert!(f.relocations_stripped);
    assert_eq!(f.debug_directory_entry_rva, 0);
}

#[test]
fn te_image_with_unknown_machine_is_rejected() {
    expect_failure(te_image(0x1234, 11, 0x1c0), 0x80, PeCoffImageError::ImageErrorInvalidMachineType);
}

#[test]
fn te_header_with_too_small_stripped_size_is_unsupported() {
    expect_failure(te_image(0x8664, 11, 8), 0x80, PeCoffImageError::ImageErrorUnsupported);
}

#[test]
fn te_image_shorter_than_its_header_is_a_read_error() {
    let image = te_image(0x8664, 11, 0x1c0)[..20].to_vec();
    expect_failure(image, 20, PeCoffImageError::ImageErrorImageRead);
}

#[test]
fn context_built_in_code_classifies_after_its_size_is_set() {
    let mut ctx = PeCoffLoaderImageContext::new(MemoryImage::new(pe_image(0x0ebc, 13, 0x22)));
    assert_eq!(ctx.update_info_from_headers(), Err(PeCoffImageError::ImageErrorInvalidImageSize));
    ctx.set_image_size(IMAGE_LEN as u64);
    assert_eq!(ctx.update_info_from_headers(), Ok(()));
    assert_eq!(ctx.fields().machine, 0x0ebc);
    assert_eq!(ctx.fields().image_type, 13);
    assert_eq!(ctx.image_error(), PeCoffImageError::ImageErrorSuccess);
}

#[test]
fn classification_read_request_covers_the_whole_image() {
    let mut ctx = PeCoffLoaderImageContext::new(MemoryImage::new(vec![]));
    assert_eq!(ctx.header_read_request(), Err(PeCoffImageError::ImageErrorInvalidImageSize));
    ctx.set_image_size(0x1234);
    assert_eq!(ctx.header_read_request(), Ok((0, 0x1234)));
}

#[test]
fn recording_a_classification_from_bytes() {
    let mut ctx = PeCoffLoaderImageContext::new(MemoryImage::new(vec![]));
    ctx.set_image_size(IMAGE_LEN as u64);
    assert_eq!(ctx.record_classification(&pe_image(0x6264, 10, 0x22)), Ok(()));
    assert_eq!(ctx.fields().machine, 0x6264);
    assert_eq!(ctx.fields().image_type, 10);
    let mut bad = pe_image(0x6264, 10, 0x22);
    bad[1] = 0;
    assert_eq!(ctx.record_classification(&bad), Err(PeCoffImageError::ImageErrorInvalidPeHeaderSignature));
    assert_eq!(ctx.image_error(), PeCoffImageError::ImageErrorInvalidPeHeaderSignature);
    assert_eq!(ctx.fields().machine, 0x6264);
}

#[test]
fn finishing_a_read_cuts_to_the_count() {
    assert_eq!(finish_read(vec![1, 2, 3, 4], Ok(2)), Ok(vec![1, 2]));
    assert_eq!(finish_read(vec![1, 2, 3, 4], Ok(5)), Err(PeCoffImageError::ImageErrorImageRead));
    assert_eq!(
        finish_read(vec![1, 2], Err(PeCoffImageError::ImageErrorImageRead)),
        Err(PeCoffImageError::ImageErrorImageRead)
    );
}

#[test]
fn te_header_fields_are_decoded() {
    let mut image = te_image(0x8664, 11, 0x48);
    put32(&mut image, 28, 0x10);
    put32(&mut image, 32, 0x300);
    put32(&mut image, 36, 0x1c);
    let t = decode_te_header(&image).expect("valid TE header");
    assert_eq!(t.machine, 0x8664);
    assert_eq!(t.subsystem, 11);
    assert_eq!(t.reloc_dir_size, 0x10);
    assert_eq!(t.debug_dir_rva, 0x300 - (0x48 - 40));
    assert_eq!(t.debug_dir_size, 0x1c);
}

#[test]
fn memory_image_reports_success() {
    let reader = MemoryImage::new(vec![7, 8]);
    let mut size = 2usize;
    let mut buffer = [0u8; 2];
    assert_eq!(reader.read_file(0, &mut size, &mut buffer), Status::SUCCESS);
    assert_eq!(buffer, [7, 8]);
}
