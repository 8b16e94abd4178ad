use vstd::prelude::*;
use crate::error::PeCoffImageError;

verus! {

/// The bytes of a DOS header.
pub const DOS_HEADER_SIZE: usize = 64;

/// "MZ", read as a little-endian 16-bit value.
pub const DOS_SIGNATURE: u16 = 0x5a4d;

/// Where the DOS header holds the offset of the PE header.
pub const PE_POINTER_OFFSET: usize = 0x3c;

/// "PE\0\0", read as a little-endian 32-bit value.
pub const PE_SIGNATURE: u32 = 0x4550;

/// The PE signature and the COFF file header that follows it.
pub const PE_SIGNATURE_AND_COFF_SIZE: usize = 24;

/// The COFF characteristics bit that marks an image without base relocations.
pub const RELOCS_STRIPPED_FLAG: u16 = 1;

/// What the image loader reads of a PE optional header.
#[derive(Clone, Copy, Debug, PartialEq, Eq, Structural)]
pub struct OptionalFields {
    pub subsystem: u16,
    pub section_alignment: u32,
    pub size_of_headers: u32,
    pub debug_directory_rva: Option<u32>,
}

/// What the image loader reads of the decoded PE headers.
#[derive(Clone, Copy, Debug, PartialEq, Eq, Structural)]
pub struct PeHeaders {
    pub machine: u16,
    pub characteristics: u16,
    pub optional: Option<OptionalFields>,
}

/// What the image loader reads of a TE header.
#[derive(Clone, Copy, Debug, PartialEq, Eq, Structural)]
pub struct TeFields {
    pub machine: u16,
    pub number_of_sections: u8,
    pub subsystem: u8,
    pub reloc_dir_size: u32,
    pub debug_dir_rva: u32,
    pub debug_dir_size: u32,
}

/// "VZ", read as a little-endian 16-bit value.
pub const TE_SIGNATURE: u16 = 0x5a56;

/// The bytes of a TE header, and of each section header after it.
pub const TE_HEADER_SIZE: u32 = 40;

/// TE images carry no section alignment; their sections are page aligned.
pub const TE_SECTION_ALIGNMENT: u32 = 0x1000;

/// What classification records of an accepted image.
#[derive(Clone, Copy, Debug, PartialEq, Eq, Structural)]
pub struct ImageInfo {
    pub machine: u16,
    pub image_type: u16,
    pub pe_coff_header_offset: u32,
    pub section_alignment: u32,
    pub size_of_headers: u32,
    pub relocations_stripped: bool,
    pub is_te_image: bool,
    pub debug_directory_entry_rva: u32,
}

/// A decoder error, as an outside value.
#[verifier::external_type_specification]
#[verifier::external_body]
pub struct ExGoblinError(goblin::error::Error);

/// The headers that the PE decoder finds in `bytes`, or `None` where it
/// rejects them.
pub uninterp spec fn pe_headers_of(bytes: Seq<u8>) -> Option<PeHeaders>;

/// Relies on goblin's `pe::PE::parse`: whether it accepts the bytes, and the
/// header fields it reports, depend on the bytes alone.
#[verifier::external_body]
pub(crate) fn decode_pe(bytes: &[u8]) -> (r: Result<PeHeaders, goblin::error::Error>)
    ensures
        r is Ok <==> pe_headers_of(bytes@) is Some,
        r matches Ok(h) ==> pe_headers_of(bytes@) == Some(h),
{
    let pe = goblin::pe::PE::parse(bytes)?;
    let optional = match pe.header.optional_header {
        Some(o) => Some(OptionalFields {
            subsystem: o.windows_fields.subsystem,
            section_alignment: o.windows_fields.section_alignment,
            size_of_headers: o.windows_fields.size_of_headers,
            debug_directory_rva: o.data_directories.get_debug_table().map(|d| d.virtual_address),
        }),
        None => None,
    };
    let coff = pe.header.coff_header;
    Ok(PeHeaders { machine: coff.machine, characteristics: coff.characteristics, optional })
}

/// The TE header at the start of `bytes`, little-endian and 40 bytes long,
/// or `None` where the bytes are too few or the stripped size is below the
/// header's own size. The debug directory address is moved back, wrapping,
/// by the bytes stripped beyond the header.
pub open spec fn te_fields_spec(b: Seq<u8>) -> Option<TeFields> {
    if b.len() < TE_HEADER_SIZE || u16_le(b, 6) < TE_HEADER_SIZE {
        None
    } else {
        Some(
            TeFields {
                machine: u16_le(b, 2) as u16,
                number_of_sections: b[4],
                subsystem: b[5],
                reloc_dir_size: u32_le(b, 28) as u32,
                debug_dir_rva: ((u32_le(b, 32) - (u16_le(b, 6) - TE_HEADER_SIZE)) % 0x1_0000_0000) as u32,
                debug_dir_size: u32_le(b, 36) as u32,
            },
        )
    }
}

/// Relies on goblin's `pe::header::TeHeader::parse`, which reads the header
/// fields in order and refuses a stripped size below the header's size.
#[verifier::external_body]
pub(crate) fn decode_te(bytes: &[u8]) -> (r: Result<TeFields, goblin::error::Error>)
    ensures
        r is Ok <==> te_fields_spec(bytes@) is Some,
        r matches Ok(t) ==> te_fields_spec(bytes@) == Some(t),
{
    let h = goblin::pe::header::TeHeader::parse(bytes, &mut 0)?;
    Ok(TeFields {
        machine: h.machine,
        number_of_sections: h.number_of_sections,
        subsystem: h.subsystem,
        reloc_dir_size: h.reloc_dir.size,
        debug_dir_rva: h.debug_dir.virtual_address,
        debug_dir_size: h.debug_dir.size,
    })
}

/// The TE decoder's verdict on `bytes`, with a rejection mapped to the
/// library's error.
pub open spec fn decoded_te_spec(bytes: Seq<u8>) -> Result<TeFields, PeCoffImageError> {
    match te_fields_spec(bytes) {
        Some(t) => Ok(t),
        None => Err(PeCoffImageError::ImageErrorUnsupported),
    }
}

/// Decodes the TE header at the start of `bytes`.
pub fn decode_te_header(bytes: &[u8]) -> (r: Result<TeFields, PeCoffImageError>)
    ensures
        r == decoded_te_spec(bytes@),
{
    match decode_te(bytes) {
        Ok(t) => Ok(t),
        Err(e) => Err(PeCoffImageError::from(e)),
    }
}

/// The decoder's verdict on `bytes`, with a rejection mapped to the
/// library's error.
pub open spec fn decoded_spec(bytes: Seq<u8>) -> Result<PeHeaders, PeCoffImageError> {
    match pe_headers_of(bytes) {
        Some(h) => Ok(h),
        None => Err(PeCoffImageError::ImageErrorUnsupported),
    }
}

/// Decodes the PE headers of `bytes`.
pub fn decode_headers(bytes: &[u8]) -> (r: Result<PeHeaders, PeCoffImageError>)
    ensures
        r == decoded_spec(bytes@),
{
    match decode_pe(bytes) {
        Ok(h) => Ok(h),
        Err(e) => Err(PeCoffImageError::from(e)),
    }
}

/// The little-endian 16-bit value at `i`.
pub open spec fn u16_le(d: Seq<u8>, i: int) -> int {
    d[i] + 256 * d[i + 1]
}

/// The little-endian 32-bit value at `i`.
pub open spec fn u32_le(d: Seq<u8>, i: int) -> int {
    d[i] + 256 * d[i + 1] + 65536 * d[i + 2] + 16777216 * d[i + 3]
}

fn read_u16_le(d: &[u8], i: usize) -> (r: u16)
    requires
        i + 2 <= d@.len(),
    ensures
        r == u16_le(d@, i as int),
{
    d[i] as u16 + (d[i + 1] as u16) * 256
}

fn read_u32_le(d: &[u8], i: usize) -> (r: u32)
    requires
        i + 4 <= d@.len(),
    ensures
        r == u32_le(d@, i as int),
{
    d[i] as u32 + (d[i + 1] as u32) * 256 + (d[i + 2] as u32) * 65536 + (d[i + 3] as u32) * 16777216
}

/// The machine types an image may be built for: IA-32, x64, ARM Thumb,
/// AArch64, RISC-V 64, LoongArch 64 and EFI byte code.
pub open spec fn supported_machine(m: u16) -> bool {
    m == 0x014c || m == 0x8664 || m == 0x01c2 || m == 0xaa64 || m == 0x5064 || m == 0x6264 || m
        == 0x0ebc
}

/// The subsystems of firmware images: EFI application, boot service driver,
/// runtime driver and SAL runtime driver.
pub open spec fn supported_subsystem(s: u16) -> bool {
    10 <= s <= 13
}

fn is_supported_machine(m: u16) -> (r: bool)
    ensures
        r == supported_machine(m),
{
    m == 0x014c || m == 0x8664 || m == 0x01c2 || m == 0xaa64 || m == 0x5064 || m == 0x6264 || m
        == 0x0ebc
}

/// Whether `d` holds a DOS header whose PE pointer leads to a PE signature
/// inside the bytes.
pub open spec fn pe_signature_found(d: Seq<u8>) -> bool {
    &&& d.len() >= DOS_HEADER_SIZE
    &&& u16_le(d, 0) == DOS_SIGNATURE
    &&& u32_le(d, PE_POINTER_OFFSET as int) + PE_SIGNATURE_AND_COFF_SIZE <= d.len()
    &&& u32_le(d, u32_le(d, PE_POINTER_OFFSET as int)) == PE_SIGNATURE
}

/// The record of an accepted image, from its bytes and decoded headers.
pub open spec fn image_info_spec(d: Seq<u8>, h: PeHeaders, o: OptionalFields) -> ImageInfo {
    ImageInfo {
        machine: h.machine,
        image_type: o.subsystem,
        pe_coff_header_offset: u32_le(d, PE_POINTER_OFFSET as int) as u32,
        section_alignment: o.section_alignment,
        size_of_headers: o.size_of_headers,
        relocations_stripped: h.characteristics % 2 == 1,
        is_te_image: false,
        debug_directory_entry_rva: match o.debug_directory_rva {
            Some(rva) => rva,
            None => 0,
        },
    }
}

/// The classification of an image of `image_size` bytes, given the bytes
/// that were read of it and what the decoder made of them.
pub open spec fn classify_spec(
    d: Seq<u8>,
    image_size: u64,
    decoded: Result<PeHeaders, PeCoffImageError>,
) -> Result<ImageInfo, PeCoffImageError> {
    if d.len() < image_size || d.len() < DOS_HEADER_SIZE {
        Err(PeCoffImageError::ImageErrorImageRead)
    } else if u16_le(d, 0) != DOS_SIGNATURE {
        Err(PeCoffImageError::ImageErrorInvalidPeHeaderSignature)
    } else if u32_le(d, PE_POINTER_OFFSET as int) + PE_SIGNATURE_AND_COFF_SIZE > d.len() {
        Err(PeCoffImageError::ImageErrorInvalidImageSize)
    } else if u32_le(d, u32_le(d, PE_POINTER_OFFSET as int)) != PE_SIGNATURE {
        Err(PeCoffImageError::ImageErrorInvalidPeHeaderSignature)
    } else {
        match decoded {
            Err(e) => Err(e),
            Ok(h) => match h.optional {
                None => Err(PeCoffImageError::ImageErrorUnsupported),
                Some(o) => if !supported_machine(h.machine) {
                    Err(PeCoffImageError::ImageErrorInvalidMachineType)
                } else if !supported_subsystem(o.subsystem) {
                    Err(PeCoffImageError::ImageErrorInvalidSubsystem)
                } else if o.size_of_headers > image_size {
                    Err(PeCoffImageError::ImageErrorInvalidImageSize)
                } else if o.section_alignment == 0 {
                    Err(PeCoffImageError::ImageErrorInvalidSectionAlignment)
                } else {
                    Ok(image_info_spec(d, h, o))
                },
            },
        }
    }
}

/// Classifies an image from the bytes read of it and the decoder's verdict
/// on them.
pub fn classify_image(
    d: &[u8],
    image_size: u64,
    decoded: Result<PeHeaders, PeCoffImageError>,
) -> (r: Result<ImageInfo, PeCoffImageError>)
    ensures
        r == classify_spec(d@, image_size, decoded),
{
    let len = d.len();
    if (len as u64) < image_size || len < DOS_HEADER_SIZE {
        return Err(PeCoffImageError::ImageErrorImageRead);
    }
    if read_u16_le(d, 0) != DOS_SIGNATURE {
        return Err(PeCoffImageError::ImageErrorInvalidPeHeaderSignature);
    }
    let pe_offset = read_u32_le(d, PE_POINTER_OFFSET);
    if pe_offset as usize > len || len - (pe_offset as usize) < PE_SIGNATURE_AND_COFF_SIZE {
        return Err(PeCoffImageError::ImageErrorInvalidImageSize);
    }
    if read_u32_le(d, pe_offset as usize) != PE_SIGNATURE {
        return Err(PeCoffImageError::ImageErrorInvalidPeHeaderSignature);
    }
    let h = match decoded {
        Err(e) => return Err(e),
        Ok(h) => h,
    };
    let o = match h.optional {
        None => return Err(PeCoffImageError::ImageErrorUnsupported),
        Some(o) => o,
    };
    if !is_supported_machine(h.machine) {
        return Err(PeCoffImageError::ImageErrorInvalidMachineType);
    }
    if o.subsystem < 10 || o.subsystem > 13 {
        return Err(PeCoffImageError::ImageErrorInvalidSubsystem);
    }
    if o.size_of_headers as u64 > image_size {
        return Err(PeCoffImageError::ImageErrorInvalidImageSize);
    }
    if o.section_alignment == 0 {
        return Err(PeCoffImageError::ImageErrorInvalidSectionAlignment);
    }
    let debug_directory_entry_rva = match o.debug_directory_rva {
        Some(rva) => rva,
        None => 0,
    };
    Ok(ImageInfo {
        machine: h.machine,
        image_type: o.subsystem,
        pe_coff_header_offset: pe_offset,
        section_alignment: o.section_alignment,
        size_of_headers: o.size_of_headers,
        relocations_stripped: h.characteristics % 2 == RELOCS_STRIPPED_FLAG,
        is_te_image: false,
        debug_directory_entry_rva,
    })
}

/// Whether `d` starts with a TE signature.
pub open spec fn is_te_spec(d: Seq<u8>) -> bool {
    d.len() >= 2 && u16_le(d, 0) == TE_SIGNATURE
}

/// Tells a TE image from a PE image by its first two bytes.
pub fn is_te(d: &[u8]) -> (r: bool)
    ensures
        r == is_te_spec(d@),
{
    d.len() >= 2 && read_u16_le(d, 0) == TE_SIGNATURE
}

/// The classification of a TE image of `image_size` bytes, given the bytes
/// read of it and what the decoder made of its header.
pub open spec fn classify_te_spec(
    d: Seq<u8>,
    image_size: u64,
    decoded: Result<TeFields, PeCoffImageError>,
) -> Result<ImageInfo, PeCoffImageError> {
    if d.len() < image_size || d.len() < TE_HEADER_SIZE {
        Err(PeCoffImageError::ImageErrorImageRead)
    } else {
        match decoded {
            Err(e) => Err(e),
            Ok(t) => if !supported_machine(t.machine) {
                Err(PeCoffImageError::ImageErrorInvalidMachineType)
            } else if !supported_subsystem(t.subsystem as u16) {
                Err(PeCoffImageError::ImageErrorInvalidSubsystem)
            } else if TE_HEADER_SIZE + TE_HEADER_SIZE * t.number_of_sections > image_size {
                Err(PeCoffImageError::ImageErrorInvalidImageSize)
            } else {
                Ok(
                    ImageInfo {
                        machine: t.machine,
                        image_type: t.subsystem as u16,
                        pe_coff_header_offset: 0,
                        section_alignment: TE_SECTION_ALIGNMENT,
                        size_of_headers: (TE_HEADER_SIZE + TE_HEADER_SIZE * t.number_of_sections) as u32,
                        relocations_stripped: t.reloc_dir_size == 0,
                        is_te_image: true,
                        debug_directory_entry_rva: if t.debug_dir_size == 0 {
                            0
                        } else {
                            t.debug_dir_rva
                        },
                    },
                )
            },
        }
    }
}

/// Classifies a TE image from the bytes read of it and the decoder's verdict
/// on its header.
pub fn classify_te_image(
    d: &[u8],
    image_size: u64,
    decoded: Result<TeFields, PeCoffImageError>,
) -> (r: Result<ImageInfo, PeCoffImageError>)
    ensures
        r == classify_te_spec(d@, image_size, decoded),
{
    let len = d.len();
    if (len as u64) < image_size || len < TE_HEADER_SIZE as usize {
        return Err(PeCoffImageError::ImageErrorImageRead);
    }
    let t = match decoded {
        Err(e) => return Err(e),
        Ok(t) => t,
    };
    if !is_supported_machine(t.machine) {
        return Err(PeCoffImageError::ImageErrorInvalidMachineType);
    }
    if t.subsystem < 10 || t.subsystem > 13 {
        return Err(PeCoffImageError::ImageErrorInvalidSubsystem);
    }
    let size_of_headers: u32 = TE_HEADER_SIZE + TE_HEADER_SIZE * (t.number_of_sections as u32);
    if size_of_headers as u64 > image_size {
        return Err(PeCoffImageError::ImageErrorInvalidImageSize);
    }
    Ok(ImageInfo {
        machine: t.machine,
        image_type: t.subsystem as u16,
        pe_coff_header_offset: 0,
        section_alignment: TE_SECTION_ALIGNMENT,
        size_of_headers,
        relocations_stripped: t.reloc_dir_size == 0,
        is_te_image: true,
        debug_directory_entry_rva: if t.debug_dir_size == 0 {
            0
        } else {
            t.debug_dir_rva
        },
    })
}

/// The classification of an image from the bytes read of it: a TE image
/// where they start with a TE signature, a PE image otherwise.
pub open spec fn image_classification_spec(d: Seq<u8>, image_size: u64) -> Result<
    ImageInfo,
    PeCoffImageError,
> {
    if is_te_spec(d) {
        classify_te_spec(d, image_size, decoded_te_spec(d))
    } else {
        classify_spec(d, image_size, decoded_spec(d))
    }
}

} // verus!
