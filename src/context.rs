use vstd::prelude::*;
use crate::error::PeCoffImageError;
use crate::headers::{
    classify_image,
    classify_spec,
    classify_te_image,
    decode_headers,
    decode_te_header,
    image_classification_spec,
    is_te,
    is_te_spec,
    pe_headers_of,
    pe_signature_found,
    supported_machine,
    supported_subsystem,
    ImageInfo,
    OptionalFields,
    PeHeaders,
};
use crate::reader::{read_outcome, read_outcome_spec, ImageReader, STATUS_SUCCESS_CODE};

verus! {

/// The plain fields of a loader context. Addresses, sizes and offsets are
/// numbers; `handle`, `fixup_data`, `code_view` and `pdb_pointer` are opaque
/// caller values that this layer never dereferences.
#[derive(Clone, Copy, Debug, Default, PartialEq, Eq, Structural)]
pub struct ContextFields {
    pub image_address: u64,
    pub image_size: u64,
    pub destination_address: u64,
    pub entry_point: u64,
    pub handle: usize,
    pub fixup_data: usize,
    pub section_alignment: u32,
    pub pe_coff_header_offset: u32,
    pub debug_directory_entry_rva: u32,
    pub code_view: usize,
    pub pdb_pointer: usize,
    pub size_of_headers: usize,
    pub image_code_memory_type: u32,
    pub image_data_memory_type: u32,
    pub fixup_data_size: usize,
    pub machine: u16,
    pub image_type: u16,
    pub relocations_stripped: bool,
    pub is_te_image: bool,
    pub hii_resource_data: u64,
    pub context: u64,
}

/// Every field zero or false.
pub open spec fn zeroed_fields() -> ContextFields {
    ContextFields {
        image_address: 0,
        image_size: 0,
        destination_address: 0,
        entry_point: 0,
        handle: 0,
        fixup_data: 0,
        section_alignment: 0,
        pe_coff_header_offset: 0,
        debug_directory_entry_rva: 0,
        code_view: 0,
        pdb_pointer: 0,
        size_of_headers: 0,
        image_code_memory_type: 0,
        image_data_memory_type: 0,
        fixup_data_size: 0,
        machine: 0,
        image_type: 0,
        relocations_stripped: false,
        is_te_image: false,
        hii_resource_data: 0,
        context: 0,
    }
}

/// `f` with the fields that classification derives taken from `info`.
pub open spec fn with_info(f: ContextFields, info: ImageInfo) -> ContextFields {
    ContextFields {
        machine: info.machine,
        image_type: info.image_type,
        pe_coff_header_offset: info.pe_coff_header_offset,
        section_alignment: info.section_alignment,
        size_of_headers: info.size_of_headers as usize,
        relocations_stripped: info.relocations_stripped,
        is_te_image: info.is_te_image,
        debug_directory_entry_rva: info.debug_directory_entry_rva,
        ..f
    }
}

/// The read that classification makes of an image of `image_size` bytes:
/// offset and length.
pub open spec fn header_read_request_spec(image_size: u64) -> Result<(usize, usize), PeCoffImageError> {
    if image_size == 0 || image_size > usize::MAX {
        Err(PeCoffImageError::ImageErrorInvalidImageSize)
    } else {
        Ok((0usize, image_size as usize))
    }
}

/// Whether classifying the bytes `d` of the image that `old_fields`
/// describes led to result `r`, fields `new_fields` and error `new_error`.
pub open spec fn classification_recorded(
    old_fields: ContextFields,
    d: Seq<u8>,
    r: Result<(), PeCoffImageError>,
    new_fields: ContextFields,
    new_error: PeCoffImageError,
) -> bool {
    match image_classification_spec(d, old_fields.image_size) {
        Ok(info) => r is Ok && new_error == PeCoffImageError::ImageErrorSuccess && new_fields
            == with_info(old_fields, info),
        Err(e) => r == Err::<(), PeCoffImageError>(e) && new_error == e && new_fields == old_fields,
    }
}

/// A read result with the buffer seen as a sequence.
pub open spec fn read_view(r: Result<Vec<u8>, PeCoffImageError>) -> Result<Seq<u8>, PeCoffImageError> {
    match r {
        Ok(v) => Ok(v@),
        Err(e) => Err(e),
    }
}

/// What a read into `buffer` yields once decided: the buffer cut to the
/// count read, or the error.
pub open spec fn finished_read_spec(buffer: Seq<u8>, outcome: Result<usize, PeCoffImageError>) -> Result<
    Seq<u8>,
    PeCoffImageError,
> {
    match outcome {
        Ok(n) => if n <= buffer.len() {
            Ok(buffer.subrange(0, n as int))
        } else {
            Err(PeCoffImageError::ImageErrorImageRead)
        },
        Err(e) => Err(e),
    }
}

/// Cuts a filled buffer to the count of a decided read.
pub fn finish_read(buffer: Vec<u8>, outcome: Result<usize, PeCoffImageError>) -> (r: Result<
    Vec<u8>,
    PeCoffImageError,
>)
    ensures
        read_view(r) == finished_read_spec(buffer@, outcome),
{
    match outcome {
        Ok(n) => if n <= buffer.len() {
            let mut buffer = buffer;
            buffer.truncate(n);
            Ok(buffer)
        } else {
            Err(PeCoffImageError::ImageErrorImageRead)
        },
        Err(e) => Err(e),
    }
}

/// A read into a buffer keeps exactly the count that the read source
/// reported when its status is success and the count fits the buffer, and
/// fails as a read error otherwise: a longer report never reaches beyond
/// the buffer.
pub proof fn lemma_read_keeps_the_reported_count(b: Seq<u8>, code: usize, reported: usize)
    requires
        b.len() <= usize::MAX,
    ensures
        code == STATUS_SUCCESS_CODE && reported <= b.len() ==> finished_read_spec(
            b,
            read_outcome_spec(code, reported, b.len() as usize),
        ) == Ok::<Seq<u8>, PeCoffImageError>(b.subrange(0, reported as int)) && b.subrange(
            0,
            reported as int,
        ).len() == reported,
        code != STATUS_SUCCESS_CODE || reported > b.len() ==> finished_read_spec(
            b,
            read_outcome_spec(code, reported, b.len() as usize),
        ) == Err::<Seq<u8>, PeCoffImageError>(PeCoffImageError::ImageErrorImageRead),
{
}

/// Classifying a well-formed image records the machine and subsystem found
/// in its headers, and success.
pub proof fn lemma_well_formed_image_records_its_kind(
    f: ContextFields,
    d: Seq<u8>,
    h: PeHeaders,
    o: OptionalFields,
)
    requires
        d.len() == f.image_size,
        !is_te_spec(d),
        pe_signature_found(d),
        h.optional == Some(o),
        supported_machine(h.machine),
        supported_subsystem(o.subsystem),
        o.size_of_headers <= f.image_size,
        o.section_alignment != 0,
    ensures
        classify_spec(d, f.image_size, Ok(h)) matches Ok(info) && (pe_headers_of(d) == Some(h)
            ==> image_classification_spec(d, f.image_size) == Ok::<ImageInfo, PeCoffImageError>(
            info,
        )) && with_info(f, info).machine
            == h.machine && with_info(f, info).image_type == o.subsystem
            && with_info(f, info).image_size == f.image_size,
{
}

/// A loader context as the caller hands it over, before validation: the
/// read source may be missing and the error field may hold any number.
pub struct RawImageContext<R> {
    pub fields: ContextFields,
    pub image_read: Option<R>,
    pub image_error: u32,
}

/// A validated loader context. It can only be had from `from_raw` or `new`,
/// and always holds a read source.
pub struct PeCoffLoaderImageContext<R> {
    fields: ContextFields,
    image_read: R,
    image_error: PeCoffImageError,
}

impl<R: ImageReader> PeCoffLoaderImageContext<R> {
    pub closed spec fn spec_fields(&self) -> ContextFields {
        self.fields
    }

    pub closed spec fn spec_error(&self) -> PeCoffImageError {
        self.image_error
    }

    pub closed spec fn spec_reader(&self) -> R {
        self.image_read
    }

    /// A context with every field zero, no error, and the given read source.
    pub fn new(image_read: R) -> (r: Self)
        ensures
            r.spec_fields() == zeroed_fields(),
            r.spec_error() == PeCoffImageError::ImageErrorSuccess,
            r.spec_reader() == image_read,
    {
        PeCoffLoaderImageContext {
            fields: ContextFields {
                image_address: 0,
                image_size: 0,
                destination_address: 0,
                entry_point: 0,
                handle: 0,
                fixup_data: 0,
                section_alignment: 0,
                pe_coff_header_offset: 0,
                debug_directory_entry_rva: 0,
                code_view: 0,
                pdb_pointer: 0,
                size_of_headers: 0,
                image_code_memory_type: 0,
                image_data_memory_type: 0,
                fixup_data_size: 0,
                machine: 0,
                image_type: 0,
                relocations_stripped: false,
                is_te_image: false,
                hii_resource_data: 0,
                context: 0,
            },
            image_read,
            image_error: PeCoffImageError::ImageErrorSuccess,
        }
    }

    /// Whether a caller's record meets what every consumer of a context
    /// expects: a read source is present.
    fn is_raw_struture_valid(raw: &RawImageContext<R>) -> (r: bool)
        ensures
            r == raw.image_read is Some,
    {
        raw.image_read.is_some()
    }

    /// Validates a caller's record; `None` stands for a null address. The
    /// error field is output only, so whatever it held is reset to success.
    pub fn from_raw(raw: Option<RawImageContext<R>>) -> (r: Result<Self, ()>)
        ensures
            raw is None ==> r is Err,
            raw matches Some(c) ==> (r is Ok <==> c.image_read is Some),
            r matches Ok(ctx) ==> raw matches Some(c) && ctx.spec_fields() == c.fields
                && ctx.spec_error() == PeCoffImageError::ImageErrorSuccess && c.image_read == Some(
                ctx.spec_reader(),
            ),
    {
        match raw {
            None => Err(()),
            Some(c) => {
                if !Self::is_raw_struture_valid(&c) {
                    return Err(());
                }
                match c.image_read {
                    Some(image_read) => Ok(
                        PeCoffLoaderImageContext {
                            fields: c.fields,
                            image_read,
                            image_error: PeCoffImageError::ImageErrorSuccess,
                        },
                    ),
                    None => Err(()),
                }
            },
        }
    }

    /// Hands the context back as a caller's record, its error as a number.
    pub fn into_raw(self) -> (r: RawImageContext<R>)
        ensures
            r.fields == self.spec_fields(),
            r.image_read == Some(self.spec_reader()),
            r.image_error == self.spec_error().spec_code(),
    {
        let image_error = self.image_error.code();
        RawImageContext { fields: self.fields, image_read: Some(self.image_read), image_error }
    }

    pub fn fields(&self) -> (r: ContextFields)
        ensures
            r == self.spec_fields(),
    {
        self.fields
    }

    /// The read source the context reads through.
    pub fn image_read_source(&self) -> (r: &R)
        ensures
            *r == self.spec_reader(),
    {
        &self.image_read
    }

    pub fn image_error(&self) -> (r: PeCoffImageError)
        ensures
            r == self.spec_error(),
    {
        self.image_error
    }

    pub fn set_image_size(&mut self, image_size: u64)
        ensures
            final(self).spec_fields() == (ContextFields { image_size, ..old(self).spec_fields() }),
            final(self).spec_error() == old(self).spec_error(),
            final(self).spec_reader() == old(self).spec_reader(),
    {
        self.fields.image_size = image_size;
    }

    /// Reads up to `buffer.len()` bytes at `offset` through the read source.
    /// A failed status, or a reported count above the buffer's size, is a
    /// read failure; otherwise the reported count comes back.
    pub fn read_image_into(&self, offset: usize, buffer: &mut [u8]) -> (r: Result<
        usize,
        PeCoffImageError,
    >)
        ensures
            final(buffer)@.len() == old(buffer)@.len(),
            r matches Ok(n) ==> n <= old(buffer)@.len(),
            r matches Err(e) ==> e == PeCoffImageError::ImageErrorImageRead,
            exists|code: usize, reported: usize|
                r == #[trigger] read_outcome_spec(code, reported, old(buffer)@.len() as usize),
    {
        let capacity = buffer.len();
        let mut read_size = capacity;
        let status = self.image_read.read_file(offset, &mut read_size, buffer);
        let code = status.as_usize();
        let r = read_outcome(code, read_size, capacity);
        assert(r == read_outcome_spec(code, read_size, old(buffer)@.len() as usize));
        r
    }

    /// Reads up to `size` bytes at `offset` into a new buffer of `size`
    /// bytes, cut to the count that the read source reported.
    pub fn read_image(&self, offset: usize, size: usize) -> (r: Result<Vec<u8>, PeCoffImageError>)
        ensures
            r matches Ok(v) ==> v@.len() <= size,
            r matches Err(e) ==> e == PeCoffImageError::ImageErrorImageRead,
            exists|b: Seq<u8>, code: usize, reported: usize|
                b.len() == size && #[trigger] finished_read_spec(
                    b,
                    read_outcome_spec(code, reported, size),
                ) == read_view(r),
    {
        let mut buffer: Vec<u8> = vec![0u8; size];
        let outcome = self.read_image_into(offset, buffer.as_mut_slice());
        let ghost filled = buffer@;
        let r = finish_read(buffer, outcome);
        assert(exists|code: usize, reported: usize|
            #[trigger] read_outcome_spec(code, reported, size) == outcome);
        let ghost code = choose|code: usize, reported: usize|
            #[trigger] read_outcome_spec(code, reported, size) == outcome;
        assert(finished_read_spec(filled, read_outcome_spec(code.0, code.1, size)) == read_view(r));
        r
    }

    /// The read that classification makes: the whole image from offset 0,
    /// or a size error where the image size is zero or does not fit memory.
    pub fn header_read_request(&self) -> (r: Result<(usize, usize), PeCoffImageError>)
        ensures
            r == header_read_request_spec(self.spec_fields().image_size),
    {
        let image_size = self.fields.image_size;
        if image_size == 0 || image_size > usize::MAX as u64 {
            Err(PeCoffImageError::ImageErrorInvalidImageSize)
        } else {
            Ok((0, image_size as usize))
        }
    }

    /// Classifies the bytes read of the image, as a TE or a PE image, and
    /// records the outcome: the derived fields and success, or the error and
    /// nothing else.
    pub fn record_classification(&mut self, file_data: &[u8]) -> (r: Result<(), PeCoffImageError>)
        ensures
            final(self).spec_reader() == old(self).spec_reader(),
            classification_recorded(
                old(self).spec_fields(),
                file_data@,
                r,
                final(self).spec_fields(),
                final(self).spec_error(),
            ),
    {
        let image_size = self.fields.image_size;
        let outcome = if is_te(file_data) {
            let decoded = decode_te_header(file_data);
            classify_te_image(file_data, image_size, decoded)
        } else {
            let decoded = decode_headers(file_data);
            classify_image(file_data, image_size, decoded)
        };
        match outcome {
            Ok(info) => {
                self.fields.machine = info.machine;
                self.fields.image_type = info.image_type;
                self.fields.pe_coff_header_offset = info.pe_coff_header_offset;
                self.fields.section_alignment = info.section_alignment;
                self.fields.size_of_headers = info.size_of_headers as usize;
                self.fields.relocations_stripped = info.relocations_stripped;
                self.fields.is_te_image = info.is_te_image;
                self.fields.debug_directory_entry_rva = info.debug_directory_entry_rva;
                self.image_error = PeCoffImageError::ImageErrorSuccess;
                assert(self.fields == with_info(old(self).fields, info));
                Ok(())
            },
            Err(e) => {
                self.image_error = e;
                Err(e)
            },
        }
    }

    /// Reads the whole image and records its classification. A size error
    /// comes before any read; a failed read is recorded as such; otherwise
    /// the outcome is the classification of the bytes read.
    pub fn update_info_from_headers(&mut self) -> (r: Result<(), PeCoffImageError>)
        ensures
            final(self).spec_reader() == old(self).spec_reader(),
            header_read_request_spec(old(self).spec_fields().image_size) matches Err(e) ==> r == Err::<
                (),
                PeCoffImageError,
            >(e) && final(self).spec_error() == e && final(self).spec_fields() == old(
                self,
            ).spec_fields(),
            header_read_request_spec(old(self).spec_fields().image_size) is Ok ==> (r == Err::<
                (),
                PeCoffImageError,
            >(PeCoffImageError::ImageErrorImageRead) && final(self).spec_error()
                == PeCoffImageError::ImageErrorImageRead && final(self).spec_fields() == old(
                self,
            ).spec_fields()) || exists|d: Seq<u8>|
                d.len() <= old(self).spec_fields().image_size && #[trigger] classification_recorded(
                    old(self).spec_fields(),
                    d,
                    r,
                    final(self).spec_fields(),
                    final(self).spec_error(),
                ),
    {
        let (offset, size) = match self.header_read_request() {
            Ok(request) => request,
            Err(e) => {
                self.image_error = e;
                return Err(e);
            },
        };
        let file_data = match self.read_image(offset, size) {
            Ok(d) => d,
            Err(e) => {
                self.image_error = e;
                return Err(e);
            },
        };
        let ghost before = *self;
        let r = self.record_classification(file_data.as_slice());
        assert(classification_recorded(
            before.fields,
            file_data@,
            r,
            self.fields,
            self.image_error,
        ));
        r
    }
}

} // verus!
