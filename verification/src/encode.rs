//! The request encoder: optional strings into null-terminated native buffers.
//!
//! A present string becomes a buffer of its UTF-8 bytes followed by one
//! terminator byte; an absent one stays absent, which the native library
//! reads as "no filter" or "no default path". A string that already holds a
//! terminator byte has no native form and is refused before anything else
//! happens.
use crate::error::{ErrorView, NFDError};
use vstd::prelude::*;
use vstd::slice::slice_to_vec;
use vstd::utf8::*;

verus! {

/// Whether `bytes` holds a terminator byte anywhere.
pub open spec fn has_terminator(bytes: Seq<u8>) -> bool {
    bytes.contains(0u8)
}

/// The native form of `content`: its bytes, then one terminator byte.
pub open spec fn c_string(content: Seq<u8>) -> Seq<u8> {
    content.push(0u8)
}

/// Whether `buffer` is a native string: it ends in a terminator byte and
/// holds no other.
pub open spec fn is_c_string(buffer: Seq<u8>) -> bool {
    &&& buffer.len() > 0
    &&& buffer.last() == 0u8
    &&& !has_terminator(buffer.drop_last())
}

/// What a reader finds that walks `buffer` from its start and stops at the
/// first terminator byte, as the native library does with a pointer to it.
pub open spec fn c_string_content(buffer: Seq<u8>) -> Seq<u8> {
    match buffer.index_of_first(0u8) {
        Some(end) => buffer.take(end),
        None => buffer,
    }
}

/// The encoding of one string: its native form, or the position of the first
/// terminator byte among its UTF-8 bytes.
pub open spec fn encoded_text(text: Seq<char>) -> Result<Seq<u8>, ErrorView> {
    match encode_utf8(text).index_of_first(0u8) {
        Some(position) => Err(ErrorView::NulError(position as nat)),
        None => Ok(c_string(encode_utf8(text))),
    }
}

/// The encoding of an optional string: an absent one stays absent.
pub open spec fn encoded_option(text: Option<Seq<char>>) -> Result<Option<Seq<u8>>, ErrorView> {
    match text {
        None => Ok(None),
        Some(text) => match encoded_text(text) {
            Ok(buffer) => Ok(Some(buffer)),
            Err(error) => Err(error),
        },
    }
}

/// The encoding of a request. The filter is encoded first, so where both
/// strings hold a terminator byte the failure is the filter's.
pub open spec fn encoded_request(
    filter_list: Option<Seq<char>>,
    default_path: Option<Seq<char>>,
) -> Result<RequestView, ErrorView> {
    match encoded_option(filter_list) {
        Err(error) => Err(error),
        Ok(filter_list) => match encoded_option(default_path) {
            Err(error) => Err(error),
            Ok(default_path) => Ok(RequestView { filter_list, default_path }),
        },
    }
}

/// The characters of an optional string slice.
pub open spec fn text_of(text: Option<&str>) -> Option<Seq<char>> {
    match text {
        Some(text) => Some(text@),
        None => None,
    }
}

/// What the native library reads back through an encoded argument: nothing
/// for an absent one, else the text of the bytes before the terminator.
pub open spec fn read_back(argument: Option<Seq<u8>>) -> Option<Seq<char>> {
    match argument {
        Some(buffer) => Some(decode_utf8(c_string_content(buffer))),
        None => None,
    }
}

/// An owned, null-terminated byte buffer, ready to be handed to the native
/// library by address. It always ends in a terminator byte and holds no
/// other.
#[derive(Debug)]
pub struct NativeBuffer {
    bytes: Vec<u8>,
}

impl View for NativeBuffer {
    type V = Seq<u8>;

    /// The buffer's bytes, the terminator included.
    closed spec fn view(&self) -> Seq<u8> {
        self.bytes@
    }
}

impl NativeBuffer {
    #[verifier::type_invariant]
    spec fn well_formed(&self) -> bool {
        is_c_string(self.bytes@)
    }

    /// Encodes `text` for the native library. Fails, with the position of the
    /// first terminator byte, exactly when the UTF-8 bytes of `text` hold
    /// one.
    pub fn new(text: &str) -> (encoded: Result<NativeBuffer, NFDError>)
        ensures
            match encoded {
                Ok(buffer) => encoded_text(text@) == Ok::<Seq<u8>, ErrorView>(buffer@),
                Err(error) => encoded_text(text@) == Err::<Seq<u8>, ErrorView>(error@),
            },
    {
        let content = text.as_bytes();
        let mut position: usize = 0;
        while position < content.len()
            invariant
                position <= content.len(),
                content@ == encode_utf8(text@),
                forall|i: int| 0 <= i < position ==> content@[i] != 0u8,
            decreases content.len() - position,
        {
            if content[position] == 0 {
                proof {
                    content@.index_of_first_ensures(0u8);
                }
                return Err(NFDError::NulError(position));
            }
            position += 1;
        }
        let mut bytes = slice_to_vec(content);
        bytes.push(0);
        proof {
            content@.index_of_first_ensures(0u8);
            assert(bytes@.drop_last() =~= content@);
        }
        Ok(NativeBuffer { bytes })
    }

    /// The buffer's bytes with the terminator: what the native library reads
    /// through the buffer's address.
    pub fn as_bytes_with_nul(&self) -> (bytes: &[u8])
        ensures
            bytes@ == self@,
            is_c_string(bytes@),
    {
        proof {
            use_type_invariant(self);
        }
        self.bytes.as_slice()
    }
}

/// The two arguments of a dialog call, encoded. `None` stands for the null
/// pointer.
#[derive(Debug)]
pub struct EncodedRequest {
    pub filter_list: Option<NativeBuffer>,
    pub default_path: Option<NativeBuffer>,
}

/// The mathematical value of an [`EncodedRequest`].
pub struct RequestView {
    pub filter_list: Option<Seq<u8>>,
    pub default_path: Option<Seq<u8>>,
}

/// The bytes of an optional buffer.
pub open spec fn bytes_of(buffer: Option<NativeBuffer>) -> Option<Seq<u8>> {
    match buffer {
        Some(buffer) => Some(buffer@),
        None => None,
    }
}

impl View for EncodedRequest {
    type V = RequestView;

    open spec fn view(&self) -> RequestView {
        RequestView {
            filter_list: bytes_of(self.filter_list),
            default_path: bytes_of(self.default_path),
        }
    }
}

/// Encodes an optional string: `None` stays `None`.
pub fn encode_option(text: Option<&str>) -> (encoded: Result<Option<NativeBuffer>, NFDError>)
    ensures
        match encoded {
            Ok(buffer) => encoded_option(text_of(text)) == Ok::<Option<Seq<u8>>, ErrorView>(
                bytes_of(buffer),
            ),
            Err(error) => encoded_option(text_of(text)) == Err::<Option<Seq<u8>>, ErrorView>(
                error@,
            ),
        },
{
    match text {
        None => Ok(None),
        Some(text) => match NativeBuffer::new(text) {
            Ok(buffer) => Ok(Some(buffer)),
            Err(error) => Err(error),
        },
    }
}

/// Encodes the two strings of a request, the filter first. Fails exactly
/// when one of them holds a terminator byte, with the failure of the first
/// that does.
pub fn encode_request(filter_list: Option<&str>, default_path: Option<&str>) -> (encoded: Result<
    EncodedRequest,
    NFDError,
>)
    ensures
        match encoded {
            Ok(request) => encoded_request(text_of(filter_list), text_of(default_path)) == Ok::<
                RequestView,
                ErrorView,
            >(request@),
            Err(error) => encoded_request(text_of(filter_list), text_of(default_path)) == Err::<
                RequestView,
                ErrorView,
            >(error@),
        },
{
    let filter_list = match encode_option(filter_list) {
        Ok(buffer) => buffer,
        Err(error) => {
            return Err(error);
        },
    };
    let default_path = match encode_option(default_path) {
        Ok(buffer) => buffer,
        Err(error) => {
            return Err(error);
        },
    };
    Ok(EncodedRequest { filter_list, default_path })
}

/// A native string, read back, gives the bytes it was made from.
pub proof fn lemma_c_string_round_trip(content: Seq<u8>)
    requires
        !has_terminator(content),
    ensures
        is_c_string(c_string(content)),
        c_string_content(c_string(content)) == content,
{
    let buffer = c_string(content);
    assert(buffer.drop_last() =~= content);
    assert(buffer[content.len() as int] == 0u8);
    buffer.index_of_first_ensures(0u8);
    let end = buffer.index_of_first(0u8).unwrap();
    if end < content.len() {
        assert(content[end] == 0u8);
    }
    assert(buffer.take(end) =~= content);
}

/// Encoding succeeds on every pair of strings without a terminator byte, and
/// what the native library reads back through the encoded arguments are the
/// strings themselves; an absent string reads back as absent.
pub proof fn lemma_encoding_round_trips(
    filter_list: Option<Seq<char>>,
    default_path: Option<Seq<char>>,
)
    requires
        filter_list matches Some(text) ==> !has_terminator(encode_utf8(text)),
        default_path matches Some(text) ==> !has_terminator(encode_utf8(text)),
    ensures
        encoded_request(filter_list, default_path) matches Ok(request) && read_back(
            request.filter_list,
        ) == filter_list && read_back(request.default_path) == default_path,
{
    lemma_text_round_trip(filter_list);
    lemma_text_round_trip(default_path);
}

proof fn lemma_text_round_trip(text: Option<Seq<char>>)
    requires
        text matches Some(text) ==> !has_terminator(encode_utf8(text)),
    ensures
        encoded_option(text) matches Ok(buffer) && read_back(buffer) == text,
{
    if let Some(text) = text {
        let content = encode_utf8(text);
        content.index_of_first_ensures(0u8);
        lemma_c_string_round_trip(content);
        encode_utf8_decode_utf8(text);
    }
}

/// Encoding fails on every request in which a string holds a terminator byte.
pub proof fn lemma_terminator_is_refused(
    filter_list: Option<Seq<char>>,
    default_path: Option<Seq<char>>,
)
    requires
        (filter_list matches Some(text) && has_terminator(encode_utf8(text))) || (
        default_path matches Some(text) && has_terminator(encode_utf8(text))),
    ensures
        encoded_request(filter_list, default_path) matches Err(error) && error is NulError,
{
    if let Some(text) = filter_list {
        encode_utf8(text).index_of_first_ensures(0u8);
    }
    if let Some(text) = default_path {
        encode_utf8(text).index_of_first_ensures(0u8);
    }
}

} // verus!
