//! Handles and the typed-handle abstraction.
//!
//! The VM owns every handle; the host holds only the reference bytes.  A
//! value of [`Any`] records, beside those bytes, the answers the layer has
//! read back from the VM about the handle: whether it is an error, a string
//! or a library, the string's UTF-8 content where it could be extracted, and
//! the outcome of rendering the handle through the VM's to-string primitive.
//! Every decision the layer makes is a function of these recorded answers,
//! which is what lets the downcast and error rules be verified; the boundary
//! veneer fills them in from the C ABI.

use vstd::prelude::*;

verus! {

/// The recorded facts about one handle, as the contracts see them.
pub struct AnyView {
    /// The opaque reference bytes, or `0` for a value the layer itself
    /// synthesized and the boundary has yet to materialize.
    pub raw: u64,
    /// Whether the VM reports the handle as an error.
    pub err: bool,
    /// Whether the VM reports the handle as a library.
    pub lib: bool,
    /// Whether the VM reports the handle as a string.
    pub is_str: bool,
    /// The string's UTF-8 content, where the handle is a string and the
    /// content could be extracted.
    pub text: Option<Seq<u8>>,
    /// The UTF-8 rendering of the handle through the VM's to-string
    /// primitive; `None` when stringification fails in any way.
    pub shown: Option<Seq<u8>>,
}

/// The view of optionally recorded bytes.
pub open spec fn opt_bytes_view(o: Option<Vec<u8>>) -> Option<Seq<u8>> {
    match o {
        Some(v) => Some(v@),
        None => None,
    }
}

/// A handle with no statically known type: the universal entry and exit
/// point for values crossing the VM boundary.
#[derive(Debug)]
pub struct Any {
    raw: u64,
    err: bool,
    lib: bool,
    is_str: bool,
    text: Option<Vec<u8>>,
    shown: Option<Vec<u8>>,
}

impl View for Any {
    type V = AnyView;

    closed spec fn view(&self) -> AnyView {
        AnyView {
            raw: self.raw,
            err: self.err,
            lib: self.lib,
            is_str: self.is_str,
            text: opt_bytes_view(self.text),
            shown: opt_bytes_view(self.shown),
        }
    }
}

/// Copies optionally recorded bytes without changing what they say.
fn copy_opt_bytes(o: &Option<Vec<u8>>) -> (r: Option<Vec<u8>>)
    ensures
        opt_bytes_view(r) == opt_bytes_view(*o),
{
    match o {
        Some(v) => Some(vstd::slice::slice_to_vec(v.as_slice())),
        None => None,
    }
}

impl Any {
    /// Wraps one handle's reference bytes together with the VM's answers
    /// about it.  The boundary veneer queries the VM and records the answers
    /// here; a test writes the same values directly.
    pub fn new(
        raw: u64,
        err: bool,
        lib: bool,
        is_str: bool,
        text: Option<Vec<u8>>,
        shown: Option<Vec<u8>>,
    ) -> (h: Any)
        ensures
            h@ == (AnyView {
                raw,
                err,
                lib,
                is_str,
                text: opt_bytes_view(text),
                shown: opt_bytes_view(shown),
            }),
    {
        Any { raw, err, lib, is_str, text, shown }
    }

    /// Whether the VM reports this handle as an error.
    pub fn is_error(&self) -> (r: bool)
        ensures
            r == self@.err,
    {
        self.err
    }

    /// The recorded to-string rendering of this handle.
    pub fn shown_bytes(&self) -> (r: &Option<Vec<u8>>)
        ensures
            opt_bytes_view(*r) == self@.shown,
    {
        &self.shown
    }

    /// A second handle to the same value, recording the same answers.
    pub fn dup(&self) -> (r: Any)
        ensures
            r@ == self@,
    {
        Any {
            raw: self.raw,
            err: self.err,
            lib: self.lib,
            is_str: self.is_str,
            text: copy_opt_bytes(&self.text),
            shown: copy_opt_bytes(&self.shown),
        }
    }
}

/// What every handle wrapper offers: the raw reference bytes, and itself as
/// a generic handle.
pub trait DartHandle: Sized {
    /// The recorded facts about the wrapped handle.
    spec fn any_view(&self) -> AnyView;

    /// The opaque reference bytes.
    fn as_raw(&self) -> (r: u64)
        ensures
            r == self.any_view().raw,
    ;

    /// The wrapped handle with its type forgotten.
    fn as_any(&self) -> (r: Any)
        ensures
            r@ == self.any_view(),
    ;
}

/// The capability contract of a typed handle: a runtime type predicate, an
/// unchecked narrowing reserved for internal use, and a diagnostic name.
pub trait DartType: DartHandle {
    /// What the runtime predicate answers for a handle.
    spec fn spec_is_type(h: AnyView) -> bool;

    /// The diagnostic name of the capability.
    spec fn spec_typename() -> Seq<char>;

    /// The runtime type predicate for this capability.
    fn is_type(handle: &Any) -> (r: bool)
        ensures
            r == Self::spec_is_type(handle@),
    ;

    /// Unchecked narrowing.  Constructing a typed handle without first
    /// checking [`DartType::is_type`] is reserved for internal use.
    fn from(handle: &Any) -> (r: Self)
        ensures
            r.any_view() == handle@,
    ;

    /// The diagnostic name used in cast-failure messages.
    fn typename() -> (r: &'static str)
        ensures
            r@ == Self::spec_typename(),
    ;
}

impl DartHandle for Any {
    open spec fn any_view(&self) -> AnyView {
        self@
    }

    fn as_raw(&self) -> (r: u64) {
        self.raw
    }

    fn as_any(&self) -> (r: Any) {
        self.dup()
    }
}

/// A handle specialization for a VM-level error condition.  It carries no
/// structured fields beyond the underlying handle: detail is obtained by
/// rendering it through the VM.
#[derive(Debug)]
pub struct Error(Any);

impl DartHandle for Error {
    closed spec fn any_view(&self) -> AnyView {
        self.0@
    }

    fn as_raw(&self) -> (r: u64) {
        self.0.raw
    }

    fn as_any(&self) -> (r: Any) {
        self.0.dup()
    }
}

/// The fixed fallback used when a handle cannot be rendered as text.
pub open spec fn placeholder_text() -> Seq<char> {
    "Failed to convert to string"@
}

/// The diagnostic produced for a failed downcast: the wanted capability's
/// name between two fixed phrases, followed by the handle's rendering, or by
/// the fixed fallback when rendering failed.  The fallback, rather than a
/// second downcast of the failed rendering, is what guarantees that error
/// construction never loops.
pub open spec fn cast_failure_message(wanted: Seq<char>, shown: Option<Seq<u8>>) -> Seq<u8> {
    let got = match shown {
        Some(b) => b,
        None => vstd::utf8::encode_utf8(placeholder_text()),
    };
    vstd::utf8::encode_utf8("Cast failure, wanted "@) + vstd::utf8::encode_utf8(wanted)
        + vstd::utf8::encode_utf8(" got "@) + got
}

/// The facts recorded about an error handle the layer itself constructed:
/// an error whose rendering is the given message.
pub open spec fn api_error_view(message: Seq<u8>) -> AnyView {
    AnyView { raw: 0, err: true, lib: false, is_str: false, text: None, shown: Some(message) }
}

/// A fresh error carrying the given diagnostic message.
pub fn new_api_error(message: Vec<u8>) -> (r: Error)
    ensures
        r.any_view() == api_error_view(message@),
{
    Error(
        Any {
            raw: 0,
            err: true,
            lib: false,
            is_str: false,
            text: None,
            shown: Some(message),
        },
    )
}

/// Appends the bytes of `src` to `dst`.
fn append_bytes(dst: &mut Vec<u8>, src: &[u8])
    ensures
        final(dst)@ == old(dst)@ + src@,
{
    let n = src.len();
    let mut i: usize = 0;
    while i < n
        invariant
            n == src@.len(),
            i <= n,
            dst@ == old(dst)@ + src@.subrange(0, i as int),
        decreases n - i,
    {
        dst.push(src[i]);
        proof {
            assert(old(dst)@ + src@.subrange(0, i + 1) =~= (old(dst)@ + src@.subrange(
                0,
                i as int,
            )).push(src@[i as int]));
        }
        i = i + 1;
    }
    proof {
        assert(src@.subrange(0, src@.len() as int) =~= src@);
    }
}

/// Builds the cast-failure diagnostic for a wanted capability name and a
/// recorded rendering.
fn cast_failure_bytes(wanted: &str, shown: &Option<Vec<u8>>) -> (r: Vec<u8>)
    ensures
        r@ == cast_failure_message(wanted@, opt_bytes_view(*shown)),
{
    let mut out: Vec<u8> = vstd::slice::slice_to_vec("Cast failure, wanted ".as_bytes());
    append_bytes(&mut out, wanted.as_bytes());
    append_bytes(&mut out, " got ".as_bytes());
    match shown {
        Some(b) => append_bytes(&mut out, b.as_slice()),
        None => append_bytes(&mut out, "Failed to convert to string".as_bytes()),
    }
    out
}

impl Any {
    /// Checked narrowing of a generic handle.
    ///
    /// Succeeds exactly when the runtime predicate for `T` holds.  On a
    /// mismatch, a handle that is itself an error is passed through
    /// unchanged rather than masked; any other handle is reported as a
    /// fresh cast-failure error that names the wanted capability and the
    /// handle's rendering, falling back to a fixed phrase when the handle
    /// could not be rendered.
    pub fn as_object<T: DartType>(&self) -> (r: Result<T, Error>)
        ensures
            r is Ok <==> T::spec_is_type(self@),
            r is Ok ==> r->Ok_0.any_view() == self@,
            !T::spec_is_type(self@) && self@.err ==> r is Err && r->Err_0.any_view() == self@,
            !T::spec_is_type(self@) && !self@.err ==> r is Err && r->Err_0.any_view()
                == api_error_view(cast_failure_message(T::spec_typename(), self@.shown)),
    {
        if T::is_type(self) {
            Ok(T::from(self))
        } else if self.is_error() {
            // Propagate the original error unchanged; do not mask it with a
            // cast failure.
            Err(Error(self.dup()))
        } else {
            let message = cast_failure_bytes(T::typename(), &self.shown);
            Err(new_api_error(message))
        }
    }
}

/// A handle for the VM's unit-like "no useful value" results.
#[derive(Debug)]
pub struct Empty(Any);

impl DartHandle for Empty {
    closed spec fn any_view(&self) -> AnyView {
        self.0@
    }

    fn as_raw(&self) -> (r: u64) {
        self.0.raw
    }

    fn as_any(&self) -> (r: Any) {
        self.0.dup()
    }
}

impl DartType for Empty {
    open spec fn spec_is_type(h: AnyView) -> bool {
        !h.err
    }

    open spec fn spec_typename() -> Seq<char> {
        "None"@
    }

    fn is_type(handle: &Any) -> (r: bool) {
        !handle.is_error()
    }

    fn from(handle: &Any) -> (r: Empty) {
        Empty(handle.dup())
    }

    fn typename() -> (r: &'static str) {
        "None"
    }
}

/// A typed handle for VM strings.
#[derive(Debug)]
pub struct DartString(Any);

impl DartHandle for DartString {
    closed spec fn any_view(&self) -> AnyView {
        self.0@
    }

    fn as_raw(&self) -> (r: u64) {
        self.0.raw
    }

    fn as_any(&self) -> (r: Any) {
        self.0.dup()
    }
}

impl DartType for DartString {
    open spec fn spec_is_type(h: AnyView) -> bool {
        h.is_str
    }

    open spec fn spec_typename() -> Seq<char> {
        "String"@
    }

    fn is_type(handle: &Any) -> (r: bool) {
        handle.is_str
    }

    fn from(handle: &Any) -> (r: DartString) {
        DartString(handle.dup())
    }

    fn typename() -> (r: &'static str) {
        "String"
    }
}

/// The facts recorded about a string handle freshly built from UTF-8 bytes:
/// a string whose content and rendering are those bytes.
pub open spec fn string_handle_view(b: Seq<u8>) -> AnyView {
    AnyView { raw: 0, err: false, lib: false, is_str: true, text: Some(b), shown: Some(b) }
}

impl DartString {
    /// The string's UTF-8 content, copied out of the VM's borrowed buffer
    /// while it is still valid.  Fails for a string whose content could not
    /// be extracted.
    pub fn as_str(&self) -> (r: Result<Vec<u8>, Error>)
        ensures
            r is Ok <==> self.any_view().text is Some,
            r is Ok ==> Some(r->Ok_0@) == self.any_view().text,
            r is Err ==> r->Err_0.any_view() == api_error_view(
                vstd::utf8::encode_utf8(placeholder_text()),
            ),
    {
        match &self.0.text {
            Some(v) => Ok(vstd::slice::slice_to_vec(v.as_slice())),
            None => Err(
                new_api_error(
                    vstd::slice::slice_to_vec("Failed to convert to string".as_bytes()),
                ),
            ),
        }
    }

    /// A string handle whose content is the given UTF-8 bytes.  The layer
    /// validates nothing about the bytes; rejecting malformed input is the
    /// VM's responsibility, and the boundary reports such a rejection as an
    /// error result.
    pub fn from_utf8(chars: &[u8]) -> (r: Result<DartString, Error>)
        ensures
            r is Ok,
            r->Ok_0.any_view() == string_handle_view(chars@),
    {
        let text = vstd::slice::slice_to_vec(chars);
        let shown = vstd::slice::slice_to_vec(chars);
        Ok(
            DartString(
                Any {
                    raw: 0,
                    err: false,
                    lib: false,
                    is_str: true,
                    text: Some(text),
                    shown: Some(shown),
                },
            ),
        )
    }

    /// A string handle for an owned host string.
    pub fn from_string(string: &String) -> (r: Result<DartString, Error>)
        ensures
            r is Ok,
            r->Ok_0.any_view() == string_handle_view(vstd::utf8::encode_utf8(string@)),
    {
        DartString::from_utf8(string.as_str().as_bytes())
    }

    /// A string handle for a host string slice.
    pub fn from_str(string: &str) -> (r: Result<DartString, Error>)
        ensures
            r is Ok,
            r->Ok_0.any_view() == string_handle_view(vstd::utf8::encode_utf8(string@)),
    {
        DartString::from_utf8(string.as_bytes())
    }
}

/// A typed handle for VM libraries.
#[derive(Debug)]
pub struct Library(Any);

impl DartHandle for Library {
    closed spec fn any_view(&self) -> AnyView {
        self.0@
    }

    fn as_raw(&self) -> (r: u64) {
        self.0.raw
    }

    fn as_any(&self) -> (r: Any) {
        self.0.dup()
    }
}

impl DartType for Library {
    open spec fn spec_is_type(h: AnyView) -> bool {
        h.lib
    }

    open spec fn spec_typename() -> Seq<char> {
        "Library"@
    }

    fn is_type(handle: &Any) -> (r: bool) {
        handle.lib
    }

    fn from(handle: &Any) -> (r: Library) {
        Library(handle.dup())
    }

    fn typename() -> (r: &'static str) {
        "Library"
    }
}

/// A typed handle for VM send ports.  The VM offers no dedicated send-port
/// predicate at this boundary, so the capability accepts any non-error
/// handle.
#[derive(Debug)]
pub struct SendPort(Any);

impl DartHandle for SendPort {
    closed spec fn any_view(&self) -> AnyView {
        self.0@
    }

    fn as_raw(&self) -> (r: u64) {
        self.0.raw
    }

    fn as_any(&self) -> (r: Any) {
        self.0.dup()
    }
}

impl DartType for SendPort {
    open spec fn spec_is_type(h: AnyView) -> bool {
        !h.err
    }

    open spec fn spec_typename() -> Seq<char> {
        "SendPort"@
    }

    fn is_type(handle: &Any) -> (r: bool) {
        !handle.is_error()
    }

    fn from(handle: &Any) -> (r: SendPort) {
        SendPort(handle.dup())
    }

    fn typename() -> (r: &'static str) {
        "SendPort"
    }
}

/// Encoding bytes into a VM string and decoding that string hands back
/// exactly the original bytes: the string handle built from `b` records `b`
/// as its content, and decoding reads that content.
pub proof fn lemma_utf8_round_trip(b: Seq<u8>)
    ensures
        string_handle_view(b).text == Some(b),
{
}

/// A cast-failure diagnostic always names the wanted capability: the UTF-8
/// encoding of the capability's name appears contiguously in the message.
pub proof fn lemma_cast_failure_names_type(wanted: Seq<char>, shown: Option<Seq<u8>>)
    ensures
        ({
            let m = cast_failure_message(wanted, shown);
            let w = vstd::utf8::encode_utf8(wanted);
            exists|i: int|
                0 <= i && i + w.len() <= m.len() && #[trigger] m.subrange(i, i + w.len() as int)
                    == w
        }),
{
    let m = cast_failure_message(wanted, shown);
    let p = vstd::utf8::encode_utf8("Cast failure, wanted "@);
    let w = vstd::utf8::encode_utf8(wanted);
    assert(m.subrange(p.len() as int, p.len() + w.len() as int) =~= w);
}

/// When a handle cannot be rendered, the cast-failure diagnostic ends in the
/// fixed fallback phrase; no second rendering attempt is made, so error
/// construction cannot loop.
pub proof fn lemma_cast_failure_placeholder(wanted: Seq<char>)
    ensures
        cast_failure_message(wanted, None) == vstd::utf8::encode_utf8(
            "Cast failure, wanted "@,
        ) + vstd::utf8::encode_utf8(wanted) + vstd::utf8::encode_utf8(" got "@)
            + vstd::utf8::encode_utf8(placeholder_text()),
{
}

} // verus!
