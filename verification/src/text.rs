//! SDK text: raw bytes up to the first NUL, with no assumed encoding.

use vstd::prelude::*;

use vstd::slice::{slice_subrange, slice_to_vec};
use vstd::std_specs::cmp::PartialEqSpec;
use vstd::utf8::{decode_utf8, encode_utf8, valid_utf8};

use crate::error::{MvsError, MvsResult};
use crate::format::{byte_list, byte_list_spec, decimal, decimal_spec};

verus! {

/// Bytes before the first NUL, or all bytes when there is none.
pub open spec fn c_prefix(bytes: Seq<u8>) -> Seq<u8> {
    match bytes.index_of_first(0u8) {
        Some(end) => bytes.take(end),
        None => bytes,
    }
}

/// Whether the bytes can be written as a C string without being cut short.
pub open spec fn nul_free(bytes: Seq<u8>) -> bool {
    !bytes.contains(0u8)
}

/// Lossy text of a byte string, as `String::from_utf8_lossy` renders it.
pub uninterp spec fn lossy_text(bytes: Seq<u8>) -> Seq<char>;

/// Error of a UTF-8 conversion, declared so that [`SdkText::to_str`] can hand
/// it on.
#[verifier::external_type_specification]
#[verifier::external_body]
pub struct ExUtf8Error(core::str::Utf8Error);

/// `core::str::from_utf8` accepts exactly the valid UTF-8 byte strings and
/// returns a view of the same bytes. Nothing is stated of the error value.
pub assume_specification<'a>[ core::str::from_utf8 ](v: &'a [u8]) -> (r: Result<
    &'a str,
    core::str::Utf8Error,
>)
    ensures
        r is Ok <==> valid_utf8(v@),
        r matches Ok(text) ==> encode_utf8(text@) == v@,
;

/// `String::from_utf8_lossy`, always handing back an owned string: valid UTF-8
/// is decoded unchanged, anything else shows at least one replacement
/// character U+FFFD. Where the replacement characters fall is left to the name.
#[verifier::external_body]
pub(crate) fn utf8_lossy(bytes: &[u8]) -> (r: String)
    ensures
        r@ == lossy_text(bytes@),
        valid_utf8(bytes@) ==> r@ == decode_utf8(bytes@),
        !valid_utf8(bytes@) ==> r@.contains('\u{FFFD}'),
{
    String::from_utf8_lossy(bytes).into_owned()
}

/// A string as `str`'s `Debug` renders it: between quotes, with escapes.
pub uninterp spec fn quoted_text(text: Seq<char>) -> Seq<char>;

/// The `Debug` rendering of `str`, asked for by `format!` without flags. It is a
/// function of the string; which characters are escaped is left to the name.
#[verifier::external_body]
pub(crate) fn quoted(text: &str) -> (r: String)
    ensures
        r@ == quoted_text(text@),
{
    format!("{:?}", text)
}

/// An interior NUL byte found while preparing a C string.
#[derive(Debug)]
pub struct NulError(usize, Vec<u8>);

impl NulError {
    /// Index of the first NUL byte.
    pub closed spec fn position(self) -> int {
        self.0 as int
    }

    /// The rejected bytes.
    pub closed spec fn bytes(self) -> Seq<u8> {
        self.1@
    }

    /// Whether the error reports the first NUL of `bytes`.
    pub open spec fn reports(self, bytes: Seq<u8>) -> bool {
        &&& self.bytes() == bytes
        &&& bytes.index_of_first(0u8) == Some(self.position())
    }

    /// Message text of the error.
    pub open spec fn message_spec(self) -> Seq<char> {
        "nul byte found in provided data at position: "@ + decimal_spec(self.position() as nat)
    }

    /// Return the index of the first NUL byte.
    pub fn nul_position(&self) -> (r: usize)
        ensures
            r == self.position(),
    {
        self.0
    }

    /// Return the rejected bytes.
    pub fn into_vec(self) -> (r: Vec<u8>)
        ensures
            r@ == self.bytes(),
    {
        self.1
    }

    /// Render the error for a reader.
    pub fn message(&self) -> (r: String)
        ensures
            r@ == self.message_spec(),
    {
        let mut text = "nul byte found in provided data at position: ".to_owned();
        text.append(decimal(self.0).as_str());
        text
    }
}

/// Length of the text before the first NUL, or the whole length.
pub(crate) fn c_len(bytes: &[u8]) -> (end: usize)
    ensures
        end <= bytes@.len(),
        c_prefix(bytes@) == bytes@.take(end as int),
        end == bytes@.len() <==> nul_free(bytes@),
        end < bytes@.len() ==> bytes@.index_of_first(0u8) == Some(end as int),
{
    let mut end: usize = 0;
    while end < bytes.len() && bytes[end] != 0
        invariant
            end <= bytes@.len(),
            forall|i: int| 0 <= i < end ==> bytes@[i] != 0,
        decreases bytes@.len() - end,
    {
        end += 1;
    }
    proof {
        bytes@.index_of_first_ensures(0u8);
        if end < bytes@.len() {
            assert(bytes@.contains(bytes@[end as int]));
        } else {
            assert(bytes@.take(end as int) =~= bytes@);
        }
    }
    end
}

/// Copy bytes that are to become a C string, refusing an interior NUL.
pub(crate) fn c_bytes(bytes: &[u8]) -> (r: Result<Vec<u8>, NulError>)
    ensures
        r is Ok <==> nul_free(bytes@),
        r matches Ok(copy) ==> copy@ == bytes@,
        r matches Err(error) ==> error.reports(bytes@),
{
    let end = c_len(bytes);
    if end == bytes.len() {
        Ok(slice_to_vec(bytes))
    } else {
        Err(NulError(end, slice_to_vec(bytes)))
    }
}

/// Copy a fixed SDK text field up to its first NUL.
pub fn sdk_bytes_from_cstr_array(bytes: &[u8]) -> (r: Vec<u8>)
    ensures
        r@ == c_prefix(bytes@),
        nul_free(r@),
{
    let end = c_len(bytes);
    proof {
        lemma_c_prefix_is_nul_free(bytes@);
    }
    slice_to_vec(slice_subrange(bytes, 0, end))
}

/// The text before the first NUL holds no NUL.
pub proof fn lemma_c_prefix_is_nul_free(bytes: Seq<u8>)
    ensures
        nul_free(c_prefix(bytes)),
{
    bytes.index_of_first_ensures(0u8);
}

/// Cutting at the first NUL is idempotent, and leaves text without a NUL as
/// it is.
pub proof fn law_c_prefix_is_idempotent(bytes: Seq<u8>)
    ensures
        nul_free(bytes) ==> c_prefix(bytes) == bytes,
        c_prefix(c_prefix(bytes)) == c_prefix(bytes),
{
    bytes.index_of_first_ensures(0u8);
    lemma_c_prefix_is_nul_free(bytes);
    c_prefix(bytes).index_of_first_ensures(0u8);
}

/// What stands behind the first NUL of a field does not reach the text: a
/// C string read back from a NUL-terminated field is the string written there.
pub proof fn law_c_text_round_trips(text: Seq<u8>, rest: Seq<u8>)
    requires
        nul_free(text),
    ensures
        c_prefix(text.push(0u8) + rest) == text,
{
    let field = text.push(0u8) + rest;
    field.index_of_first_ensures(0u8);
    assert(field[text.len() as int] == 0u8);
    assert(field.contains(0u8));
    let end = field.index_of_first(0u8).unwrap();
    if end < text.len() {
        assert(text[end] == field[end]);
        assert(text.contains(0u8));
    }
    assert(field.take(end) =~= text);
}

/// Owned bytes of an SDK string, ending before the first NUL.
///
/// The vendor does not document the encoding of device strings, so the bytes
/// are kept as they are. Use [`SdkText::to_str`] or
/// [`SdkText::to_string_lossy`] where text is to be shown.
#[derive(Eq, PartialOrd, Ord, Hash)]
pub struct SdkText {
    bytes: Vec<u8>,
}

impl View for SdkText {
    type V = Seq<u8>;

    closed spec fn view(&self) -> Seq<u8> {
        self.bytes@
    }
}

impl SdkText {
    /// SDK text never holds a NUL.
    #[verifier::type_invariant]
    pub open spec fn has_no_nul(self) -> bool {
        nul_free(self@)
    }

    /// Take bytes from a caller, refusing an interior NUL that would cut the
    /// text short once it is written as a C string.
    pub fn new(bytes: &[u8]) -> (r: MvsResult<Self>)
        ensures
            r is Ok <==> nul_free(bytes@),
            r matches Ok(text) ==> text@ == bytes@,
            r is Err ==> (r matches Err(MvsError::Nul(error)) && error.reports(bytes@)),
    {
        match c_bytes(bytes) {
            Ok(copy) => Ok(SdkText { bytes: copy }),
            Err(error) => Err(MvsError::from(error)),
        }
    }

    /// Take the bytes of an SDK field that was already cut at its first NUL.
    pub fn from_sdk_bytes(bytes: Vec<u8>) -> (r: Self)
        requires
            nul_free(bytes@),
        ensures
            r@ == bytes@,
    {
        SdkText { bytes }
    }

    /// Borrow the bytes.
    pub fn as_bytes(&self) -> (r: &[u8])
        ensures
            r@ == self@,
            nul_free(r@),
    {
        proof {
            use_type_invariant(self);
        }
        self.bytes.as_slice()
    }

    /// Number of bytes.
    pub fn len(&self) -> (r: usize)
        ensures
            r == self@.len(),
    {
        self.bytes.len()
    }

    /// Whether the text is empty.
    pub fn is_empty(&self) -> (r: bool)
        ensures
            r == (self@.len() == 0),
    {
        self.bytes.len() == 0
    }

    /// The text, when the bytes are valid UTF-8.
    pub fn to_str(&self) -> (r: Result<&str, core::str::Utf8Error>)
        ensures
            r is Ok <==> valid_utf8(self@),
            r matches Ok(text) ==> encode_utf8(text@) == self@,
    {
        core::str::from_utf8(self.bytes.as_slice())
    }

    /// The text, with replacement characters where the bytes are not UTF-8.
    pub fn to_string_lossy(&self) -> (r: String)
        ensures
            r@ == lossy_text(self@),
            valid_utf8(self@) ==> r@ == decode_utf8(self@),
            !valid_utf8(self@) ==> r@.contains('\u{FFFD}'),
    {
        utf8_lossy(self.bytes.as_slice())
    }

    /// Diagnostic text of the bytes and of what they spell.
    pub open spec fn debug_text_spec(self) -> Seq<char> {
        "SdkText { bytes: "@ + byte_list_spec(self@) + ", lossy: "@ + quoted_text(lossy_text(self@))
            + " }"@
    }

    /// Diagnostic text, such as `SdkText { bytes: [65, 66], lossy: "AB" }`.
    pub fn debug_text(&self) -> (r: String)
        ensures
            r@ == self.debug_text_spec(),
    {
        let mut text = "SdkText { bytes: ".to_owned();
        text.append(byte_list(self.bytes.as_slice()).as_str());
        text.append(", lossy: ");
        text.append(quoted(self.to_string_lossy().as_str()).as_str());
        text.append(" }");
        text
    }

    /// Give the bytes up.
    pub fn into_bytes(self) -> (r: Vec<u8>)
        ensures
            r@ == self@,
            nul_free(r@),
    {
        proof {
            use_type_invariant(&self);
        }
        self.bytes
    }
}

impl Default for SdkText {
    /// The empty text.
    fn default() -> (r: Self)
        ensures
            r@ == Seq::<u8>::empty(),
    {
        let bytes: Vec<u8> = Vec::new();
        assert(nul_free(bytes@));
        SdkText { bytes }
    }
}

impl Clone for SdkText {
    /// A copy with the same bytes.
    fn clone(&self) -> (r: Self)
        ensures
            r@ == self@,
    {
        proof {
            use_type_invariant(self);
        }
        let bytes = slice_to_vec(self.bytes.as_slice());
        SdkText { bytes }
    }
}

impl PartialEq for SdkText {
    fn eq(&self, other: &Self) -> (r: bool) {
        same_bytes(self.bytes.as_slice(), other.bytes.as_slice())
    }
}

impl vstd::std_specs::cmp::PartialEqSpecImpl for SdkText {
    open spec fn obeys_eq_spec() -> bool {
        true
    }

    open spec fn eq_spec(&self, other: &Self) -> bool {
        self@ == other@
    }
}

impl AsRef<[u8]> for SdkText {
    fn as_ref(&self) -> (r: &[u8])
        ensures
            r@ == self@,
    {
        self.as_bytes()
    }
}

impl<'a> vstd::std_specs::convert::TryFromSpecImpl<&'a [u8]> for SdkText {
    open spec fn obeys_try_from_spec() -> bool {
        false
    }

    open spec fn try_from_spec(v: &'a [u8]) -> Result<Self, MvsError> {
        arbitrary()
    }
}

impl<'a> TryFrom<&'a [u8]> for SdkText {
    type Error = MvsError;

    fn try_from(value: &'a [u8]) -> (r: MvsResult<Self>)
        ensures
            r is Ok <==> nul_free(value@),
            r matches Ok(text) ==> text@ == value@,
            r is Err ==> (r matches Err(MvsError::Nul(error)) && error.reports(value@)),
    {
        SdkText::new(value)
    }
}

impl<'a> vstd::std_specs::convert::TryFromSpecImpl<&'a str> for SdkText {
    open spec fn obeys_try_from_spec() -> bool {
        false
    }

    open spec fn try_from_spec(v: &'a str) -> Result<Self, MvsError> {
        arbitrary()
    }
}

impl<'a> TryFrom<&'a str> for SdkText {
    type Error = MvsError;

    fn try_from(value: &'a str) -> (r: MvsResult<Self>)
        ensures
            r is Ok <==> nul_free(encode_utf8(value@)),
            r matches Ok(text) ==> text@ == encode_utf8(value@),
            r is Err ==> (r matches Err(MvsError::Nul(error)) && error.reports(
                encode_utf8(value@),
            )),
    {
        SdkText::new(value.as_bytes())
    }
}

/// Whether two byte strings are equal.
pub(crate) fn same_bytes(a: &[u8], b: &[u8]) -> (r: bool)
    ensures
        r == (a@ == b@),
{
    if a.len() != b.len() {
        return false;
    }
    let mut i: usize = 0;
    while i < a.len()
        invariant
            i <= a@.len(),
            a@.len() == b@.len(),
            forall|j: int| 0 <= j < i ==> a@[j] == b@[j],
        decreases a@.len() - i,
    {
        if a[i] != b[i] {
            return false;
        }
        i += 1;
    }
    assert(a@ =~= b@);
    true
}

/// The C text of a field is what stands before its first NUL: a prefix of the
/// field without NUL, which is the whole field or is followed by a NUL.
pub proof fn law_c_text_stands_before_the_first_nul(field: Seq<u8>)
    ensures
        c_prefix(field).len() <= field.len(),
        forall|i: int| 0 <= i < c_prefix(field).len() ==> c_prefix(field)[i] == field[i],
        forall|i: int| 0 <= i < c_prefix(field).len() ==> c_prefix(field)[i] != 0,
        c_prefix(field).len() < field.len() ==> field[c_prefix(field).len() as int] == 0,
{
    field.index_of_first_ensures(0u8);
    if field.contains(0u8) {
        let end = field.index_of_first(0u8)->0;
        assert(field.take(end).len() == end);
    } else {
        assert forall|i: int| 0 <= i < field.len() implies field[i] != 0 by {
            assert(field.contains(field[i]));
        }
    }
}

/// Bytes can be written as a C string exactly when none of them is a NUL.
pub proof fn law_nul_free_means_no_nul(bytes: Seq<u8>)
    ensures
        nul_free(bytes) <==> forall|i: int| 0 <= i < bytes.len() ==> bytes[i] != 0,
{
    if nul_free(bytes) {
        assert forall|i: int| 0 <= i < bytes.len() implies bytes[i] != 0 by {
            assert(bytes.contains(bytes[i]));
        }
    }
}

/// A NUL error points at a NUL of the very bytes that were refused, with none
/// before it.
pub proof fn law_nul_errors_point_at_the_first_nul(error: NulError, bytes: Seq<u8>)
    requires
        error.reports(bytes),
    ensures
        error.bytes() == bytes,
        0 <= error.position() < bytes.len(),
        bytes[error.position()] == 0,
        forall|i: int| 0 <= i < error.position() ==> bytes[i] != 0,
        !nul_free(bytes),
{
    bytes.index_of_first_ensures(0u8);
}

/// The diagnostic text of a text shows its bytes and then what they spell,
/// quoted.
pub proof fn law_texts_show_bytes_and_spelling(text: SdkText)
    ensures
        text.debug_text_spec() == "SdkText { bytes: "@ + byte_list_spec(text@) + ", lossy: "@
            + quoted_text(lossy_text(text@)) + " }"@,
{
}

/// Two texts are equal exactly when they have the same bytes, byte for byte.
pub proof fn law_texts_are_equal_byte_for_byte(a: SdkText, b: SdkText)
    ensures
        SdkText::obeys_eq_spec(),
        a.eq_spec(&b) <==> a@.len() == b@.len() && forall|i: int|
            0 <= i < a@.len() ==> a@[i] == b@[i],
{
    if a@.len() == b@.len() && forall|i: int| 0 <= i < a@.len() ==> a@[i] == b@[i] {
        assert(a@ =~= b@);
    }
}

} // verus!
