//! The fixed layout of a metadata blob: name, symbol and URI, one after the
//! other, each of a fixed width in bytes, with no delimiter.

use vstd::prelude::*;
use vstd::string::*;
use vstd::utf8::*;
use crate::error::ErrorCode;

verus! {

/// Most bytes that the registry stores of a name.
pub const MAX_NAME_LENGTH: usize = 32;

/// Most bytes that the registry stores of a symbol.
pub const MAX_SYMBOL_LENGTH: usize = 10;

/// Most bytes that the registry stores of a URI.
pub const MAX_URI_LENGTH: usize = 200;

/// The widths, in bytes, of the three fields of a blob. No field is wider than
/// the registry stores.
#[derive(Clone, Copy, Debug, PartialEq, Eq)]
pub struct BlobLayout {
    name: usize,
    symbol: usize,
    uri: usize,
}

impl BlobLayout {
    #[verifier::type_invariant]
    spec fn fits(self) -> bool {
        &&& self.name <= MAX_NAME_LENGTH
        &&& self.symbol <= MAX_SYMBOL_LENGTH
        &&& self.uri <= MAX_URI_LENGTH
    }

    /// The width of the name.
    pub closed spec fn spec_name_width(&self) -> usize {
        self.name
    }

    /// The width of the symbol.
    pub closed spec fn spec_symbol_width(&self) -> usize {
        self.symbol
    }

    /// The width of the URI.
    pub closed spec fn spec_uri_width(&self) -> usize {
        self.uri
    }

    /// Where the symbol ends.
    pub open spec fn symbol_end(&self) -> int {
        self.spec_name_width() + self.spec_symbol_width()
    }

    /// The least length of a blob: where the URI ends.
    pub open spec fn total(&self) -> int {
        self.spec_name_width() + self.spec_symbol_width() + self.spec_uri_width()
    }

    /// The layout with the given widths, if the registry stores fields that wide.
    pub fn new(name: usize, symbol: usize, uri: usize) -> (layout: Option<BlobLayout>)
        ensures
            layout is Some <==> name <= MAX_NAME_LENGTH && symbol <= MAX_SYMBOL_LENGTH && uri
                <= MAX_URI_LENGTH,
            layout matches Some(l) ==> l.spec_name_width() == name && l.spec_symbol_width()
                == symbol && l.spec_uri_width() == uri,
    {
        if name <= MAX_NAME_LENGTH && symbol <= MAX_SYMBOL_LENGTH && uri <= MAX_URI_LENGTH {
            Some(BlobLayout { name, symbol, uri })
        } else {
            None
        }
    }

    /// The layout of twenty bytes of name, four of symbol and 116 of URI.
    pub closed spec fn spec_standard() -> BlobLayout {
        BlobLayout { name: 20, symbol: 4, uri: 116 }
    }

    /// The widths of the standard layout.
    pub proof fn lemma_standard_widths()
        ensures
            Self::spec_standard().spec_name_width() == 20,
            Self::spec_standard().spec_symbol_width() == 4,
            Self::spec_standard().spec_uri_width() == 116,
    {
    }

    /// The layout of twenty bytes of name, four of symbol and 116 of URI.
    #[verifier::when_used_as_spec(spec_standard)]
    pub fn standard() -> (layout: BlobLayout)
        ensures
            layout == Self::spec_standard(),
            layout.spec_name_width() == 20,
            layout.spec_symbol_width() == 4,
            layout.spec_uri_width() == 116,
    {
        BlobLayout { name: 20, symbol: 4, uri: 116 }
    }

    /// The width of the name.
    #[verifier::when_used_as_spec(spec_name_width)]
    pub fn name_width(&self) -> (width: usize)
        ensures
            width == self.spec_name_width(),
            width <= MAX_NAME_LENGTH,
    {
        proof {
            use_type_invariant(self);
        }
        self.name
    }

    /// The width of the symbol.
    #[verifier::when_used_as_spec(spec_symbol_width)]
    pub fn symbol_width(&self) -> (width: usize)
        ensures
            width == self.spec_symbol_width(),
            width <= MAX_SYMBOL_LENGTH,
    {
        proof {
            use_type_invariant(self);
        }
        self.symbol
    }

    /// The width of the URI.
    #[verifier::when_used_as_spec(spec_uri_width)]
    pub fn uri_width(&self) -> (width: usize)
        ensures
            width == self.spec_uri_width(),
            width <= MAX_URI_LENGTH,
    {
        proof {
            use_type_invariant(self);
        }
        self.uri
    }
}

/// The three fields cut out of a blob.
#[derive(Debug, PartialEq, Eq)]
pub struct MetadataFields {
    pub name: String,
    pub symbol: String,
    pub uri: String,
}

/// The bytes of the name field.
pub open spec fn name_bytes(blob: Seq<u8>, layout: BlobLayout) -> Seq<u8> {
    blob.subrange(0, layout.name_width() as int)
}

/// The bytes of the symbol field.
pub open spec fn symbol_bytes(blob: Seq<u8>, layout: BlobLayout) -> Seq<u8> {
    blob.subrange(layout.name_width() as int, layout.symbol_end())
}

/// The bytes of the URI field.
pub open spec fn uri_bytes(blob: Seq<u8>, layout: BlobLayout) -> Seq<u8> {
    blob.subrange(layout.symbol_end(), layout.total())
}

/// Each of the three fields is text.
pub open spec fn fields_are_text(blob: Seq<u8>, layout: BlobLayout) -> bool {
    &&& valid_utf8(name_bytes(blob, layout))
    &&& valid_utf8(symbol_bytes(blob, layout))
    &&& valid_utf8(uri_bytes(blob, layout))
}

/// What cutting a blob gives: the failure, if there is one.
pub open spec fn blob_refusal(blob: Seq<u8>, layout: BlobLayout) -> Option<ErrorCode> {
    if blob.len() < layout.total() {
        Some(ErrorCode::InputTooShort)
    } else if !fields_are_text(blob, layout) {
        Some(ErrorCode::InvalidField)
    } else {
        None
    }
}

/// The fields hold exactly the bytes of their places in the blob.
pub open spec fn fields_of(fields: MetadataFields, blob: Seq<u8>, layout: BlobLayout) -> bool {
    &&& encode_utf8(fields.name@) == name_bytes(blob, layout)
    &&& encode_utf8(fields.symbol@) == symbol_bytes(blob, layout)
    &&& encode_utf8(fields.uri@) == uri_bytes(blob, layout)
}

/// No field is longer than the registry stores.
pub open spec fn fields_fit(fields: MetadataFields) -> bool {
    &&& encode_utf8(fields.name@).len() <= MAX_NAME_LENGTH
    &&& encode_utf8(fields.symbol@).len() <= MAX_SYMBOL_LENGTH
    &&& encode_utf8(fields.uri@).len() <= MAX_URI_LENGTH
}

/// In text, a prefix is text exactly when it ends where a character ends.
pub proof fn lemma_prefix_is_text(bytes: Seq<u8>, index: int)
    requires
        valid_utf8(bytes),
        0 <= index <= bytes.len(),
    ensures
        is_char_boundary(bytes, index) <==> valid_utf8(bytes.subrange(0, index)),
    decreases bytes.len(),
{
    if is_char_boundary(bytes, index) {
        valid_utf8_split(bytes, index);
    }
    if valid_utf8(bytes.subrange(0, index)) && index > 0 {
        let prefix = bytes.subrange(0, index);
        let width = length_of_first_scalar(bytes);
        assert(prefix[0] == bytes[0]);
        assert(length_of_first_scalar(prefix) == width);
        assert(valid_first_scalar(prefix));
        assert(width <= index);
        let rest = pop_first_scalar(bytes);
        assert(pop_first_scalar(prefix) =~= rest.subrange(0, index - width));
        lemma_prefix_is_text(rest, index - width);
    }
}

/// Cuts a blob into name, symbol and URI by the widths of `layout`. Bytes past
/// the URI are ignored.
///
/// Fails with `InputTooShort` when the blob is shorter than the three widths
/// together, and with `InvalidField` when it is long enough but one of the
/// fields is not text.
pub fn split_blob(data: &str, layout: &BlobLayout) -> (cut: Result<MetadataFields, ErrorCode>)
    ensures
        match cut {
            Ok(fields) => {
                &&& blob_refusal(data.spec_bytes(), *layout) is None
                &&& fields_of(fields, data.spec_bytes(), *layout)
                &&& fields_fit(fields)
            },
            Err(e) => blob_refusal(data.spec_bytes(), *layout) == Some(e),
        },
{
    let ghost blob = data.spec_bytes();
    let name_width = layout.name_width();
    let symbol_width = layout.symbol_width();
    let uri_width = layout.uri_width();
    let total = name_width + symbol_width + uri_width;
    if data.as_bytes().len() < total {
        return Err(ErrorCode::InputTooShort);
    }
    proof {
        encode_utf8_valid_utf8(data@);
        lemma_prefix_is_text(blob, name_width as int);
    }
    if !data.is_char_boundary(name_width) {
        return Err(ErrorCode::InvalidField);
    }
    let (name, after_name) = data.split_at(name_width);
    let ghost tail = after_name.spec_bytes();
    proof {
        encode_utf8_valid_utf8(after_name@);
        lemma_prefix_is_text(tail, symbol_width as int);
        assert(tail.subrange(0, symbol_width as int) =~= symbol_bytes(blob, *layout));
    }
    if !after_name.is_char_boundary(symbol_width) {
        return Err(ErrorCode::InvalidField);
    }
    let (symbol, after_symbol) = after_name.split_at(symbol_width);
    let ghost last = after_symbol.spec_bytes();
    proof {
        encode_utf8_valid_utf8(after_symbol@);
        lemma_prefix_is_text(last, uri_width as int);
        assert(last.subrange(0, uri_width as int) =~= uri_bytes(blob, *layout));
    }
    if !after_symbol.is_char_boundary(uri_width) {
        return Err(ErrorCode::InvalidField);
    }
    let (uri, _) = after_symbol.split_at(uri_width);
    Ok(MetadataFields { name: name.to_owned(), symbol: symbol.to_owned(), uri: uri.to_owned() })
}

} // verus!
