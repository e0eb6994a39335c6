//! Driving the native library: argument checks, return-code mapping and
//! decoding of the values that the native library hands back.
//!
//! [`FfiConnector`], [`FfiInput`] and [`FfiOutput`] wrap a native connector,
//! reader and writer. Each of their operations checks the strings it hands to
//! the native library (no NUL byte), turns sample indices into the 1-based
//! indices of the C API, calls the native library, and maps its return code
//! with [`InvokeResult`]. Their contracts state the result for every answer
//! that the native library may give.

use vstd::prelude::*;
use vstd::string::StringSliceAdditionalSpecFns;

use crate::connector::SelectedValue;
use crate::text::{int_decimal, push_signed_decimal};
use crate::native::{
    AnyValue, NativeAnyValueHolder, NativeApi, NativeCall, NativeReader, NativeReply, NativeWriter,
    ReturnCode, is_c_string, is_c_text, opt_text, return_code_of,
};
use crate::result::{
    ConnectorError, ConnectorFallible, ConnectorResult, ErrorKind, InvalidErrorKind, is_invalid,
    is_not_found,
};

verus! {

/// The native timeout that stands for "wait forever".
pub const INFINITE_TIMEOUT_IN_MS: i32 = -1;

/// `e` is the failure that the native return code `rc` stands for.
pub open spec fn is_failure_of(e: ConnectorError, rc: ReturnCode) -> bool {
    if rc == ReturnCode::Timeout {
        e.kind is Timeout
    } else {
        e.kind == (ErrorKind::Native { code: rc })
    }
}

/// `r` is what a native call that reports `rc`, with output `v`, yields:
/// `Ok(v)` on success, a timeout error on timeout, a native error otherwise.
pub open spec fn reports<T>(r: ConnectorResult<T>, rc: ReturnCode, v: T) -> bool {
    if rc == ReturnCode::Success {
        r == Ok::<T, ConnectorError>(v)
    } else {
        r matches Err(e) && is_failure_of(e, rc)
    }
}

/// `a` is `b`, except that an error may carry another native message.
pub open spec fn same_outcome<T>(a: ConnectorResult<T>, b: ConnectorResult<T>) -> bool {
    match b {
        Ok(v) => a == Ok::<T, ConnectorError>(v),
        Err(e) => a matches Err(f) && f.kind == e.kind,
    }
}

/// `r` fails because a string could not be handed to the native library.
pub open spec fn fails_on_string<T>(r: ConnectorResult<T>) -> bool {
    r matches Err(e) && is_invalid(e, InvalidErrorKind::StringConversion)
}

/// `r` fails because a sample index is beyond the range of the C API.
pub open spec fn fails_on_index<T>(r: ConnectorResult<T>) -> bool {
    r matches Err(e) && is_invalid(e, InvalidErrorKind::Argument)
}

/// `r` is what a native call that yields a string may produce: the string on
/// success, a string-conversion error when the native string is null or not
/// UTF-8, and the failure of the return code otherwise.
pub open spec fn string_reports(r: ConnectorResult<String>, rc: ReturnCode, s: Option<String>) -> bool {
    if rc == ReturnCode::Success {
        match s {
            Some(v) => r == Ok::<String, ConnectorError>(v),
            None => fails_on_string(r),
        }
    } else {
        r matches Err(e) && is_failure_of(e, rc)
    }
}

/// The value that the native holder `h` stands for, if its kind is known.
pub open spec fn selected_value_of(h: NativeAnyValueHolder) -> Option<SelectedValue> {
    if h.selected == 1 {
        Some(SelectedValue::Number(h.double_bits))
    } else if h.selected == 2 {
        Some(SelectedValue::Boolean(h.bool_value != 0))
    } else if h.selected == 3 {
        match h.string_value {
            Some(s) => Some(SelectedValue::String(s)),
            None => None,
        }
    } else {
        None
    }
}

/// The message of the failure to decode the holder `h`, whose kind is not
/// that of a value.
pub open spec fn undecodable_holder_text(h: NativeAnyValueHolder) -> Seq<char> {
    if h.selected == 3 {
        "Returned string value shouldn't be null"@
    } else if h.selected == 0 {
        "Unavaiable AnyValue kind"@
    } else {
        "Unknown AnyValue kind: "@ + int_decimal(h.selected as int)
    }
}

/// `r` is what a native call that fills the holder `h` and reports `rc` yields.
pub open spec fn selected_reports(
    r: ConnectorResult<SelectedValue>,
    rc: ReturnCode,
    h: NativeAnyValueHolder,
) -> bool {
    if rc == ReturnCode::Success {
        match selected_value_of(h) {
            Some(v) => r == Ok::<SelectedValue, ConnectorError>(v),
            None => r matches Err(e) && (e.kind matches ErrorKind::AssertionFailed { context }
                && context@ == undecodable_holder_text(h)),
        }
    } else {
        r matches Err(e) && is_failure_of(e, rc)
    }
}

/// The 1-based index of the C API for the 0-based sample index `index`.
pub open spec fn native_index(index: usize) -> i32 {
    (index + 1) as i32
}

/// `r` is what comes of the participant `n` answering `call` with a return
/// code alone.
pub open spec fn unit_answered<N: NativeApi>(n: N, call: NativeCall, r: ConnectorFallible) -> bool {
    exists|code: i32| #[trigger] n.answers(call, NativeReply::Code(code)) && reports(r, return_code_of(code), ())
}

/// `r` is what comes of the participant `n` answering `call` with a return
/// code and a C boolean.
pub open spec fn bool_answered<N: NativeApi>(n: N, call: NativeCall, r: ConnectorResult<bool>) -> bool {
    exists|code: i32, raw: i32| #[trigger] n.answers(call, NativeReply::CodeInt(code, raw)) && reports(r, return_code_of(code), raw != 0)
}

/// `r` is what comes of the participant `n` answering `call` with a return
/// code and a number of samples.
pub open spec fn count_answered<N: NativeApi>(n: N, call: NativeCall, r: ConnectorResult<usize>) -> bool {
    exists|code: i32, count: usize| #[trigger] n.answers(call, NativeReply::CodeCount(code, count)) && reports(r, return_code_of(code), count)
}

/// `r` is what comes of the participant `n` answering `call` with a return
/// code and the bits of a double.
pub open spec fn bits_answered<N: NativeApi>(n: N, call: NativeCall, r: ConnectorResult<u64>) -> bool {
    exists|code: i32, bits: u64| #[trigger] n.answers(call, NativeReply::CodeBits(code, bits)) && reports(r, return_code_of(code), bits)
}

/// `r` is what comes of the participant `n` answering `call` with a return
/// code and a string.
pub open spec fn text_answered<N: NativeApi>(n: N, call: NativeCall, r: ConnectorResult<String>) -> bool {
    exists|code: i32, text: Option<String>| #[trigger] n.answers(call, NativeReply::CodeText(code, text)) && string_reports(r, return_code_of(code), text)
}

/// `r` is what comes of the participant `n` answering `call` with a return
/// code and a dynamically typed value.
pub open spec fn selected_answered<N: NativeApi>(n: N, call: NativeCall, r: ConnectorResult<SelectedValue>) -> bool {
    exists|code: i32, h: NativeAnyValueHolder| #[trigger] n.answers(call, NativeReply::CodeAny(code, h)) && selected_reports(r, return_code_of(code), h)
}

/// `r` is what comes of the native library answering `call`, which names no
/// participant, with a return code alone.
pub open spec fn global_unit_answered<N: NativeApi>(call: NativeCall, r: ConnectorFallible) -> bool {
    exists|code: i32| #[trigger] N::global_answers(call, NativeReply::Code(code)) && reports(r, return_code_of(code), ())
}

/// `r` is what comes of the reader `rd` answering `call` with a return code alone.
pub open spec fn reader_unit_answered<R: NativeReader>(rd: R, call: NativeCall, r: ConnectorFallible) -> bool {
    exists|code: i32| #[trigger] rd.answers(call, NativeReply::Code(code)) && reports(r, return_code_of(code), ())
}

/// `r` is what comes of the reader `rd` answering `call` with a return code and
/// an integer.
pub open spec fn reader_int_answered<R: NativeReader>(rd: R, call: NativeCall, r: ConnectorResult<i32>) -> bool {
    exists|code: i32, v: i32| #[trigger] rd.answers(call, NativeReply::CodeInt(code, v)) && reports(r, return_code_of(code), v)
}

/// `r` is what comes of the reader `rd` answering `call` with a return code and
/// a string.
pub open spec fn reader_text_answered<R: NativeReader>(rd: R, call: NativeCall, r: ConnectorResult<String>) -> bool {
    exists|code: i32, text: Option<String>| #[trigger] rd.answers(call, NativeReply::CodeText(code, text)) && string_reports(r, return_code_of(code), text)
}

/// `r` is what comes of the writer `w` answering `call` with a return code alone.
pub open spec fn writer_unit_answered<W: NativeWriter>(w: W, call: NativeCall, r: ConnectorFallible) -> bool {
    exists|code: i32| #[trigger] w.answers(call, NativeReply::Code(code)) && reports(r, return_code_of(code), ())
}

/// `r` is what comes of the writer `w` answering `call` with a return code and
/// an integer.
pub open spec fn writer_int_answered<W: NativeWriter>(w: W, call: NativeCall, r: ConnectorResult<i32>) -> bool {
    exists|code: i32, v: i32| #[trigger] w.answers(call, NativeReply::CodeInt(code, v)) && reports(r, return_code_of(code), v)
}

/// `r` is what comes of the writer `w` answering `call` with a return code and
/// a string.
pub open spec fn writer_text_answered<W: NativeWriter>(w: W, call: NativeCall, r: ConnectorResult<String>) -> bool {
    exists|code: i32, text: Option<String>| #[trigger] w.answers(call, NativeReply::CodeText(code, text)) && string_reports(r, return_code_of(code), text)
}

/// The text of a build identifier, or `placeholder` when the native library
/// gives none.
pub open spec fn identifier_text(id: Option<String>, placeholder: Seq<char>) -> Seq<char> {
    match id {
        Some(t) => t@,
        None => placeholder,
    }
}

/// `r` is what comes of the native build identifiers `client` and `connector`
/// reported with `rc`: the identifiers, with placeholders for missing ones, on
/// success, and the failure of the return code otherwise.
pub open spec fn build_versions_reports(
    r: ConnectorResult<(String, String)>,
    rc: ReturnCode,
    client: Option<String>,
    connector: Option<String>,
) -> bool {
    if rc == ReturnCode::Success {
        r matches Ok((a, b)) && a@ == identifier_text(client, "<Unknown Client>"@) && b@ == identifier_text(
            connector,
            "<Unknown Connector>"@,
        )
    } else {
        r matches Err(e) && is_failure_of(e, rc)
    }
}

/// `r` is what comes of the native library's answer about its build identifiers.
pub open spec fn build_versions_answered<N: NativeApi>(r: ConnectorResult<(String, String)>) -> bool {
    exists|code: i32, client: Option<String>, connector: Option<String>| #[trigger] N::global_answers(
        NativeCall::BuildVersions,
        NativeReply::Versions(code, client, connector),
    ) && build_versions_reports(r, return_code_of(code), client, connector)
}

/// Check that `s` can be handed to the C library, which takes NUL-terminated
/// strings.
pub fn check_c_string(s: &str) -> (r: ConnectorFallible)
    ensures
        r is Ok <==> is_c_text(s@),
        r is Err ==> fails_on_string(r),
{
    let bytes = s.as_bytes();
    let mut i: usize = 0;
    while i < bytes.len()
        invariant
            i <= bytes@.len(),
            bytes@ == s.spec_bytes(),
            forall|j: int| 0 <= j < i ==> bytes@[j] != 0u8,
        decreases bytes@.len() - i,
    {
        if bytes[i] == 0u8 {
            assert(s.spec_bytes()[i as int] == 0u8);
            return ErrorKind::invalid_string_conversion_error().into_err();
        }
        i = i + 1;
    }
    Ok(())
}

/// A 1-based sample index of the C API.
#[derive(Debug, Clone, Copy, PartialEq, Eq, Structural)]
pub struct ConnectorIndex(pub i32);

impl ConnectorIndex {
    /// The C index of the 0-based sample index `value`.
    ///
    /// Indices that do not fit the C API are rejected; `i32::MAX` itself
    /// overflows the 1-based conversion and is left out.
    pub fn try_from_index(value: usize) -> (r: ConnectorResult<ConnectorIndex>)
        requires
            value != i32::MAX as usize,
        ensures
            value > i32::MAX ==> fails_on_index(r),
            value > i32::MAX ==> (r matches Err(e) && e.kind matches ErrorKind::Invalid { context, .. }
                && context@ == "index exceeds maximum allowed value"@),
            value < i32::MAX ==> r == Ok::<ConnectorIndex, ConnectorError>(
                ConnectorIndex((value + 1) as i32),
            ),
    {
        if value > i32::MAX as usize {
            ErrorKind::invalid_argument_error("index exceeds maximum allowed value").into_err()
        } else {
            Ok(ConnectorIndex(1 + value as i32))
        }
    }
}

/// The native timeout of a number of milliseconds: the number itself, or
/// `i32::MAX` when it does not fit.
pub open spec fn saturated_millis(ms: u128) -> i32 {
    if ms > i32::MAX as u128 {
        i32::MAX
    } else {
        ms as i32
    }
}

/// The native timeout of an optional timeout: the timeout, or the infinite one.
pub open spec fn native_timeout(timeout: Option<i32>) -> i32 {
    match timeout {
        Some(t) => t,
        None => INFINITE_TIMEOUT_IN_MS,
    }
}

/// The whole milliseconds of a duration.
pub uninterp spec fn duration_millis(d: std::time::Duration) -> u128;

/// `Duration::as_millis`: the whole milliseconds of `d`.
#[verifier::external_body]
fn duration_as_millis(d: std::time::Duration) -> (ms: u128)
    ensures
        ms == duration_millis(d),
{
    d.as_millis()
}

/// The native timeout of `ms` milliseconds.
pub fn timeout_from_millis(ms: u128) -> (t: i32)
    ensures
        t == saturated_millis(ms),
{
    if ms > i32::MAX as u128 {
        i32::MAX
    } else {
        ms as i32
    }
}

/// The native timeout of a duration.
pub fn timeout_from_duration(d: std::time::Duration) -> (t: i32)
    ensures
        t == saturated_millis(duration_millis(d)),
{
    timeout_from_millis(duration_as_millis(d))
}

/// The native timeout of an optional timeout.
pub fn native_timeout_ms(timeout: Option<i32>) -> (t: i32)
    ensures
        t == native_timeout(timeout),
{
    match timeout {
        Some(t) => t,
        None => INFINITE_TIMEOUT_IN_MS,
    }
}

/// Timeouts are never negative, keep every duration that fits, and never
/// shorten a longer duration below a shorter one.
pub proof fn lemma_saturated_millis(a: u128, b: u128)
    ensures
        saturated_millis(a) >= 0,
        a <= i32::MAX ==> saturated_millis(a) == a,
        a > i32::MAX ==> saturated_millis(a) == i32::MAX,
        a <= b ==> saturated_millis(a) <= saturated_millis(b),
{
}

/// The return code of a native call, with the value that it produced.
#[derive(Debug)]
pub struct InvokeResult<T>(pub ReturnCode, pub T);

impl<T> InvokeResult<T> {
    /// Map the return code: `Ok` with the value on success, a timeout error on
    /// timeout, a native error otherwise.
    pub fn into_result(self) -> (r: ConnectorResult<T>)
        ensures
            reports(r, self.0, self.1),
            r matches Err(e) ==> e.native_message is None,
    {
        match self.0 {
            ReturnCode::Success => Ok(self.1),
            ReturnCode::Timeout => ErrorKind::timeout_error().into_err(),
            other => ErrorKind::native_error(other).into_err(),
        }
    }

    /// Invoke a native function that returns a return code and one output value.
    pub fn with_output<F: FnOnce() -> (i32, T)>(op: F) -> (r: InvokeResult<T>)
        requires
            op.requires(()),
        ensures
            exists|code: i32| #[trigger] op.ensures((), (code, r.1)) && r.0 == return_code_of(code),
            r.0.is_canonical(),
    {
        let out = op();
        let code = out.0;
        let r = InvokeResult(ReturnCode::from_native(code), out.1);
        assert(op.ensures((), (code, r.1)));
        r
    }
}

impl InvokeResult<()> {
    /// Invoke a native function that returns only a return code.
    pub fn no_output<F: FnOnce() -> i32>(op: F) -> (r: InvokeResult<()>)
        requires
            op.requires(()),
        ensures
            exists|code: i32| #[trigger] op.ensures((), code) && r.0 == return_code_of(code),
            r.0.is_canonical(),
    {
        let code = op();
        InvokeResult(ReturnCode::from_native(code), ())
    }

    /// Invoke an operation that cannot fail.
    pub fn never_fails<F: FnOnce()>(op: F) -> (r: InvokeResult<()>)
        requires
            op.requires(()),
        ensures
            r.0 == ReturnCode::Success,
    {
        op();
        InvokeResult(ReturnCode::Success, ())
    }
}

impl InvokeResult<Option<String>> {
    /// Invoke a native function that returns a string directly.
    pub fn with_string_return<F: FnOnce() -> Option<String>>(op: F) -> (r: InvokeResult<
        Option<String>,
    >)
        requires
            op.requires(()),
        ensures
            r.0 == ReturnCode::Success,
            op.ensures((), r.1),
    {
        InvokeResult(ReturnCode::Success, op())
    }

    /// Map the return code, and turn a null or undecodable string into an error.
    pub fn into_string(self) -> (r: ConnectorResult<String>)
        ensures
            string_reports(r, self.0, self.1),
    {
        match self.into_result() {
            Ok(Some(s)) => Ok(s),
            Ok(None) => ErrorKind::invalid_string_conversion_error().into_err(),
            Err(e) => Err(e),
        }
    }
}

impl InvokeResult<NativeAnyValueHolder> {
    /// Map the return code, and decode the dynamically typed value.
    pub fn into_selected_value(self) -> (r: ConnectorResult<SelectedValue>)
        ensures
            selected_reports(r, self.0, self.1),
    {
        let holder = match self.into_result() {
            Ok(h) => h,
            Err(e) => {
                return Err(e);
            },
        };
        match AnyValue::from_native(holder.selected) {
            AnyValue::Number => Ok(SelectedValue::Number(holder.double_bits)),
            AnyValue::Boolean => Ok(SelectedValue::Boolean(holder.bool_value != 0)),
            AnyValue::String => match holder.string_value {
                Some(s) => Ok(SelectedValue::String(s)),
                None => ErrorKind::assertion_failed_error(
                    "Returned string value shouldn't be null",
                ).into_err(),
            },
            AnyValue::Unknown(code) => {
                let mut context = String::from_str("Unknown AnyValue kind: ");
                push_signed_decimal(&mut context, code as i64);
                ErrorKind::assertion_failed_error(context.as_str()).into_err()
            },
            AnyValue::NoValue => ErrorKind::assertion_failed_error(
                "Unavaiable AnyValue kind",
            ).into_err(),
        }
    }
}

/// A native failure in `r` carries the last error message of the native
/// library: an answer of the library to the query of that message.
pub open spec fn carries_last_message<N: NativeApi, T>(r: ConnectorResult<T>) -> bool {
    match r {
        Err(e) => e.kind is Native ==> exists|message: Option<String>| #[trigger] N::global_answers(
            NativeCall::LastErrorMessage,
            NativeReply::Text(message),
        ) && e.native_message == message,
        Ok(_) => true,
    }
}

/// A native failure in `r` carries the last error message of the native
/// library that the participant `n` belongs to.
pub open spec fn carries_library_message<N: NativeApi, T>(n: N, r: ConnectorResult<T>) -> bool {
    carries_last_message::<N, T>(r)
}

/// A native failure in `r` carries the last error message that the reader
/// `rd` reports.
pub open spec fn carries_reader_message<R: NativeReader, T>(rd: R, r: ConnectorResult<T>) -> bool {
    match r {
        Err(e) => e.kind is Native ==> exists|message: Option<String>| #[trigger] rd.answers(
            NativeCall::LastErrorMessage,
            NativeReply::Text(message),
        ) && e.native_message == message,
        Ok(_) => true,
    }
}

/// A native failure in `r` carries the last error message that the writer
/// `w` reports.
pub open spec fn carries_writer_message<W: NativeWriter, T>(w: W, r: ConnectorResult<T>) -> bool {
    match r {
        Err(e) => e.kind is Native ==> exists|message: Option<String>| #[trigger] w.answers(
            NativeCall::LastErrorMessage,
            NativeReply::Text(message),
        ) && e.native_message == message,
        Ok(_) => true,
    }
}

/// `out` is `r` itself, unless `r` is a native failure.
pub open spec fn kept_unless_native<T>(out: ConnectorResult<T>, r: ConnectorResult<T>) -> bool {
    !(r matches Err(e) && e.kind is Native) ==> out == r
}

/// `out` is the native failure `r` carrying the message `message`.
pub open spec fn native_failure_with<T>(out: ConnectorResult<T>, r: ConnectorResult<T>, message: Option<String>) -> bool {
    r matches Err(e) && out == Err::<T, ConnectorError>((ConnectorError { kind: e.kind, native_message: message }))
}

/// `r`, with the native message `message` attached to a native failure.
fn attach_message<T>(r: ConnectorResult<T>, message: Option<String>) -> (out: ConnectorResult<T>)
    ensures
        same_outcome(out, r),
        r matches Err(e) ==> out == Err::<T, ConnectorError>(
            (ConnectorError { kind: e.kind, native_message: message }),
        ),
{
    match r {
        Ok(v) => Ok(v),
        Err(e) => Err(e.with_native_message(message)),
    }
}


/// A native DDS `DataReader`.
#[derive(Debug)]
pub struct FfiInput<R>(R);

impl<R: NativeReader> FfiInput<R> {
    /// The native reader that this wraps.
    pub closed spec fn inner(&self) -> R {
        self.0
    }

    /// `r`, with the reader's last native message attached to a native failure.
    fn finish<T>(&self, r: ConnectorResult<T>) -> (out: ConnectorResult<T>)
        ensures
            same_outcome(out, r),
            kept_unless_native(out, r),
            r matches Err(e) && e.kind is Native ==> exists|message: Option<String>| #[trigger]
                self.inner().answers(NativeCall::LastErrorMessage, NativeReply::Text(message))
                && native_failure_with(out, r, message),
    {
        match r {
            Ok(v) => Ok(v),
            Err(e) => if e.is_native_error() {
                let message = self.0.last_error_message();
                let ghost answer = message;
                let out = attach_message(Err(e), message);
                assert(self.inner().answers(NativeCall::LastErrorMessage, NativeReply::Text(answer)));
                out
            } else {
                Err(e)
            },
        }
    }

    /// Wait for a publication to be matched or unmatched; the change in the
    /// number of matched publications.
    pub fn wait_for_matched_publication(&self, timeout: Option<i32>) -> (r: ConnectorResult<i32>)
        ensures
            carries_reader_message(self.inner(), r),
            reader_int_answered(
                self.inner(),
                NativeCall::WaitForMatchedPublication { timeout_ms: native_timeout(timeout) },
                r,
            ),
    {
        let t = native_timeout_ms(timeout);
        let out = self.0.wait_for_matched_publication(t);
        self.finish(InvokeResult(ReturnCode::from_native(out.0), out.1).into_result())
    }

    /// Wait for data on this reader.
    pub fn wait_for_data(&self, timeout: Option<i32>) -> (r: ConnectorFallible)
        ensures
            carries_reader_message(self.inner(), r),
            reader_unit_answered(
                self.inner(),
                NativeCall::WaitForDataOnReader { timeout_ms: native_timeout(timeout) },
                r,
            ),
    {
        let t = native_timeout_ms(timeout);
        let code = self.0.wait_for_data(t);
        self.finish(InvokeResult(ReturnCode::from_native(code), ()).into_result())
    }

    /// The matched publications, as JSON.
    pub fn get_matched_publications(&self) -> (r: ConnectorResult<String>)
        ensures
            carries_reader_message(self.inner(), r),
            reader_text_answered(self.inner(), NativeCall::GetMatchedPublications, r),
    {
        let out = self.0.get_matched_publications();
        self.finish(InvokeResult(ReturnCode::from_native(out.0), out.1).into_string())
    }
}

/// A native DDS `DataWriter`.
#[derive(Debug)]
pub struct FfiOutput<W>(W);

impl<W: NativeWriter> FfiOutput<W> {
    /// The native writer that this wraps.
    pub closed spec fn inner(&self) -> W {
        self.0
    }

    /// `r`, with the writer's last native message attached to a native failure.
    fn finish<T>(&self, r: ConnectorResult<T>) -> (out: ConnectorResult<T>)
        ensures
            same_outcome(out, r),
            kept_unless_native(out, r),
            r matches Err(e) && e.kind is Native ==> exists|message: Option<String>| #[trigger]
                self.inner().answers(NativeCall::LastErrorMessage, NativeReply::Text(message))
                && native_failure_with(out, r, message),
    {
        match r {
            Ok(v) => Ok(v),
            Err(e) => if e.is_native_error() {
                let message = self.0.last_error_message();
                let ghost answer = message;
                let out = attach_message(Err(e), message);
                assert(self.inner().answers(NativeCall::LastErrorMessage, NativeReply::Text(answer)));
                out
            } else {
                Err(e)
            },
        }
    }

    /// Wait for a subscription to be matched or unmatched; the change in the
    /// number of matched subscriptions.
    pub fn wait_for_matched_subscription(&self, timeout: Option<i32>) -> (r: ConnectorResult<i32>)
        ensures
            carries_writer_message(self.inner(), r),
            writer_int_answered(
                self.inner(),
                NativeCall::WaitForMatchedSubscription { timeout_ms: native_timeout(timeout) },
                r,
            ),
    {
        let t = native_timeout_ms(timeout);
        let out = self.0.wait_for_matched_subscription(t);
        self.finish(InvokeResult(ReturnCode::from_native(out.0), out.1).into_result())
    }

    /// Wait until all written samples have been acknowledged.
    pub fn wait_for_acknowledgments(&self, timeout: Option<i32>) -> (r: ConnectorFallible)
        ensures
            carries_writer_message(self.inner(), r),
            writer_unit_answered(
                self.inner(),
                NativeCall::WaitForAcknowledgments { timeout_ms: native_timeout(timeout) },
                r,
            ),
    {
        let t = native_timeout_ms(timeout);
        let code = self.0.wait_for_acknowledgments(t);
        self.finish(InvokeResult(ReturnCode::from_native(code), ()).into_result())
    }

    /// The matched subscriptions, as JSON.
    pub fn get_matched_subscriptions(&self) -> (r: ConnectorResult<String>)
        ensures
            carries_writer_message(self.inner(), r),
            writer_text_answered(self.inner(), NativeCall::GetMatchedSubscriptions, r),
    {
        let out = self.0.get_matched_subscriptions();
        self.finish(InvokeResult(ReturnCode::from_native(out.0), out.1).into_string())
    }
}

/// `r` fails on the index `index` if it is beyond the C API, and satisfies
/// `post` otherwise.
pub open spec fn index_checked<T>(r: ConnectorResult<T>, index: usize, post: bool) -> bool {
    if index > i32::MAX as usize {
        fails_on_index(r)
    } else {
        post
    }
}

/// A C boolean.
pub fn bool_of_native(raw: i32) -> (b: bool)
    ensures
        b == (raw != 0),
{
    raw != 0
}

/// The C boolean of `b`.
pub fn native_of_bool(b: bool) -> (raw: i32)
    ensures
        raw == (if b { 1i32 } else { 0i32 }),
{
    if b {
        1
    } else {
        0
    }
}

/// The message that the native library's answer `native` stands for: the
/// message itself, unless it is missing or empty.
pub open spec fn nonempty_message_of(native: Option<String>) -> Option<String> {
    match native {
        Some(s) => if s@.len() > 0 {
            Some(s)
        } else {
            None
        },
        None => None,
    }
}

/// The message that the native library's answer `native` stands for: an
/// empty message counts as none.
pub fn nonempty_message(native: Option<String>) -> (m: Option<String>)
    ensures
        m == nonempty_message_of(native),
{
    match native {
        Some(s) => if s.as_str().unicode_len() == 0 {
            None
        } else {
            Some(s)
        },
        None => None,
    }
}

/// A sample of the native library, handed out by
/// [`FfiConnector::get_native_sample`].
#[derive(Debug)]
pub struct FfiSample<S>(S);

impl<S> FfiSample<S> {
    /// The native sample that this wraps.
    pub closed spec fn inner(&self) -> S {
        self.0
    }

    /// The native sample itself.
    pub fn native(&self) -> (s: &S)
        ensures
            *s == self.inner(),
    {
        &self.0
    }
}

/// A native participant with its readers and writers.
#[derive(Debug)]
pub struct FfiConnector<N>(N);

impl<N: NativeApi> FfiConnector<N> {
    /// `r`, with the native library's last message attached to a native failure.
    fn finish<T>(&self, r: ConnectorResult<T>) -> (out: ConnectorResult<T>)
        ensures
            same_outcome(out, r),
            kept_unless_native(out, r),
            r matches Err(e) && e.kind is Native ==> exists|message: Option<String>| #[trigger]
                N::global_answers(NativeCall::LastErrorMessage, NativeReply::Text(message))
                && native_failure_with(out, r, message),
    {
        Self::finish_static(r)
    }

    /// `r`, with the native library's last message attached to a native failure.
    fn finish_static<T>(r: ConnectorResult<T>) -> (out: ConnectorResult<T>)
        ensures
            same_outcome(out, r),
            kept_unless_native(out, r),
            r matches Err(e) && e.kind is Native ==> exists|message: Option<String>| #[trigger]
                N::global_answers(NativeCall::LastErrorMessage, NativeReply::Text(message))
                && native_failure_with(out, r, message),
    {
        match r {
            Ok(v) => Ok(v),
            Err(e) => if e.is_native_error() {
                attach_message(Err(e), N::last_error_message())
            } else {
                Err(e)
            },
        }
    }

    /// The native participant that this wraps.
    pub closed spec fn inner(&self) -> N {
        self.0
    }

    /// The native participant itself.
    pub fn native(&self) -> (n: &N)
        ensures
            *n == self.inner(),
    {
        &self.0
    }

    /// Create the native participant `connector_name` of the XML file
    /// `config_file`: the participant that the native library creates, or a
    /// not-found error when it creates none.
    pub fn new(connector_name: &str, config_file: &str) -> (r: ConnectorResult<FfiConnector<N>>)
        ensures
            !is_c_text(connector_name@) || !is_c_text(config_file@) ==> fails_on_string(r),
            is_c_text(connector_name@) && is_c_text(config_file@) ==> exists|reply: Option<N>| #[trigger]
                N::creates(NativeCall::Create { config_name: connector_name@, config_file: config_file@ }, reply) && match reply {
                    Some(n) => r matches Ok(c) && c.inner() == n,
                    None => r matches Err(e) && is_not_found(e, connector_name@),
                },
    {
        if let Err(e) = check_c_string(connector_name) {
            return Err(e);
        }
        if let Err(e) = check_c_string(config_file) {
            return Err(e);
        }
        match N::create(connector_name, config_file) {
            Some(native) => Ok(FfiConnector(native)),
            None => ErrorKind::entity_not_found_error(connector_name).into_err(),
        }
    }

    /// The writer named `output_name`: the one that the participant gives, or a
    /// not-found error when it gives none.
    pub fn get_output(&self, output_name: &str) -> (r: ConnectorResult<FfiOutput<N::Writer>>)
        ensures
            !is_c_text(output_name@) ==> fails_on_string(r),
            is_c_text(output_name@) ==> exists|reply: Option<N::Writer>| #[trigger]
                self.inner().writer_lookup(NativeCall::GetDataWriter { entity: output_name@ }, reply) && match reply {
                    Some(w) => r matches Ok(o) && o.inner() == w,
                    None => r matches Err(e) && is_not_found(e, output_name@),
                },
    {
        if let Err(e) = check_c_string(output_name) {
            return Err(e);
        }
        let reply = self.0.get_datawriter(output_name);
        let ghost answer = reply;
        let r = match reply {
            Some(w) => Ok(FfiOutput(w)),
            None => ErrorKind::entity_not_found_error(output_name).into_err(),
        };
        assert(self.inner().writer_lookup(NativeCall::GetDataWriter { entity: output_name@ }, answer));
        r
    }

    /// The reader named `input_name`: the one that the participant gives, or a
    /// not-found error when it gives none.
    pub fn get_input(&self, input_name: &str) -> (r: ConnectorResult<FfiInput<N::Reader>>)
        ensures
            !is_c_text(input_name@) ==> fails_on_string(r),
            is_c_text(input_name@) ==> exists|reply: Option<N::Reader>| #[trigger]
                self.inner().reader_lookup(NativeCall::GetDataReader { entity: input_name@ }, reply) && match reply {
                    Some(rd) => r matches Ok(i) && i.inner() == rd,
                    None => r matches Err(e) && is_not_found(e, input_name@),
                },
    {
        if let Err(e) = check_c_string(input_name) {
            return Err(e);
        }
        let reply = self.0.get_datareader(input_name);
        let ghost answer = reply;
        let r = match reply {
            Some(rd) => Ok(FfiInput(rd)),
            None => ErrorKind::entity_not_found_error(input_name).into_err(),
        };
        assert(self.inner().reader_lookup(NativeCall::GetDataReader { entity: input_name@ }, answer));
        r
    }

    /// The native sample `index` of output `output_name`.
    pub fn get_native_sample(&self, output_name: &str, index: usize) -> (r: ConnectorResult<
        FfiSample<N::Sample>,
    >)
        requires
            index != i32::MAX as usize,
        ensures
            !is_c_text(output_name@) ==> fails_on_string(r),
            is_c_text(output_name@) ==> index_checked(
                r,
                index,
                exists|reply: Option<N::Sample>| #[trigger]
                    self.inner().sample_lookup(NativeCall::GetNativeSample { entity: output_name@, index: native_index(index) }, reply) && match reply {
                        Some(smp) => r matches Ok(s) && s.inner() == smp,
                        None => r matches Err(e) && is_not_found(e, output_name@),
                    },
            ),
    {
        if let Err(e) = check_c_string(output_name) {
            return Err(e);
        }
        let ghost position = index;
        let index = match ConnectorIndex::try_from_index(index) {
            Ok(i) => i,
            Err(e) => {
                return Err(e);
            },
        };
        assert(index.0 == native_index(position));
        let reply = self.0.get_native_sample(output_name, index.0);
        let ghost answer = reply;
        let r = match reply {
            Some(sample) => Ok(FfiSample(sample)),
            None => ErrorKind::entity_not_found_error(output_name).into_err(),
        };
        assert(self.inner().sample_lookup(NativeCall::GetNativeSample { entity: output_name@, index: native_index(position) }, answer));
        r
    }

    /// The result of a native call that answered the code `code` alone.
    fn unit_of(&self, code: i32) -> (r: ConnectorFallible)
        ensures
            carries_library_message(self.inner(), r),
            reports(r, return_code_of(code), ()),
    {
        self.finish(InvokeResult(ReturnCode::from_native(code), ()).into_result())
    }

    /// The result of a native call that answered the code `code` and the value `v`.
    fn value_of<T>(&self, code: i32, v: T) -> (r: ConnectorResult<T>)
        ensures
            carries_library_message(self.inner(), r),
            reports(r, return_code_of(code), v),
    {
        self.finish(InvokeResult(ReturnCode::from_native(code), v).into_result())
    }

    /// The result of a native call that answered the code `code` and the string `s`.
    fn string_of(&self, code: i32, s: Option<String>) -> (r: ConnectorResult<String>)
        ensures
            carries_library_message(self.inner(), r),
            string_reports(r, return_code_of(code), s),
    {
        self.finish(InvokeResult(ReturnCode::from_native(code), s).into_string())
    }

    /// The result of a native call that answered the code `code` and the
    /// dynamically typed value `h`.
    fn selected_of(&self, code: i32, h: NativeAnyValueHolder) -> (r: ConnectorResult<SelectedValue>)
        ensures
            carries_library_message(self.inner(), r),
            selected_reports(r, return_code_of(code), h),
    {
        self.finish(InvokeResult(ReturnCode::from_native(code), h).into_selected_value())
    }

    /// Set a numeric field (as IEEE-754 bits) of the sample of output `entity_name`.
    pub fn set_number_into_samples(&self, entity_name: &str, field_name: &str, value_bits: u64) -> (r:
        ConnectorFallible)
        ensures
            carries_library_message(self.inner(), r),
            !is_c_text(entity_name@) || !is_c_text(field_name@) ==> fails_on_string(r),
            is_c_text(entity_name@) && is_c_text(field_name@) ==> unit_answered(
                self.inner(),
                NativeCall::SetNumberIntoSamples { entity: entity_name@, field: field_name@, value_bits },
                r,
            ),
    {
        if let Err(e) = check_c_string(entity_name) {
            return Err(e);
        }
        if let Err(e) = check_c_string(field_name) {
            return Err(e);
        }
        let code = self.0.set_number_into_samples(entity_name, field_name, value_bits);
        self.unit_of(code)
    }

    /// Set a boolean field of the sample of output `entity_name`.
    pub fn set_boolean_into_samples(&self, entity_name: &str, name: &str, value: bool) -> (r:
        ConnectorFallible)
        ensures
            carries_library_message(self.inner(), r),
            !is_c_text(entity_name@) || !is_c_text(name@) ==> fails_on_string(r),
            is_c_text(entity_name@) && is_c_text(name@) ==> unit_answered(
                self.inner(),
                NativeCall::SetBooleanIntoSamples {
                    entity: entity_name@,
                    field: name@,
                    value: if value { 1i32 } else { 0i32 },
                },
                r,
            ),
    {
        if let Err(e) = check_c_string(entity_name) {
            return Err(e);
        }
        if let Err(e) = check_c_string(name) {
            return Err(e);
        }
        let raw = native_of_bool(value);
        let code = self.0.set_boolean_into_samples(entity_name, name, raw);
        self.unit_of(code)
    }

    /// Set a string field of the sample of output `entity_name`.
    pub fn set_string_into_samples(&self, entity_name: &str, name: &str, value: &str) -> (r:
        ConnectorFallible)
        ensures
            carries_library_message(self.inner(), r),
            !is_c_text(entity_name@) || !is_c_text(name@) || !is_c_text(value@) ==> fails_on_string(r),
            is_c_text(entity_name@) && is_c_text(name@) && is_c_text(value@) ==> unit_answered(
                self.inner(),
                NativeCall::SetStringIntoSamples { entity: entity_name@, field: name@, text: value@ },
                r,
            ),
    {
        if let Err(e) = check_c_string(entity_name) {
            return Err(e);
        }
        if let Err(e) = check_c_string(name) {
            return Err(e);
        }
        if let Err(e) = check_c_string(value) {
            return Err(e);
        }
        let code = self.0.set_string_into_samples(entity_name, name, value);
        self.unit_of(code)
    }

    /// Set a field of the sample of output `entity_name` to a value of any kind,
    /// with the setter of that kind.
    pub fn set_into_samples(&self, entity_name: &str, name: &str, value: SelectedValue) -> (r:
        ConnectorFallible)
        ensures
            carries_library_message(self.inner(), r),
            !is_c_text(entity_name@) || !is_c_text(name@) ==> fails_on_string(r),
            is_c_text(entity_name@) && is_c_text(name@) ==> set_value_answered(
                self.inner(),
                entity_name@,
                name@,
                value,
                r,
            ),
    {
        match value {
            SelectedValue::Number(v) => self.set_number_into_samples(entity_name, name, v),
            SelectedValue::Boolean(v) => self.set_boolean_into_samples(entity_name, name, v),
            SelectedValue::String(v) => self.set_string_into_samples(entity_name, name, v.as_str()),
        }
    }

    /// Reset a field of the sample of output `entity_name`.
    pub fn clear_member(&self, entity_name: &str, name: &str) -> (r: ConnectorFallible)
        ensures
            carries_library_message(self.inner(), r),
            !is_c_text(entity_name@) || !is_c_text(name@) ==> fails_on_string(r),
            is_c_text(entity_name@) && is_c_text(name@) ==> unit_answered(
                self.inner(),
                NativeCall::ClearMember { entity: entity_name@, field: name@ },
                r,
            ),
    {
        if let Err(e) = check_c_string(entity_name) {
            return Err(e);
        }
        if let Err(e) = check_c_string(name) {
            return Err(e);
        }
        let code = self.0.clear_member(entity_name, name);
        self.unit_of(code)
    }

    /// Write the sample of output `entity_name`.
    pub fn write(&self, entity_name: &str) -> (r: ConnectorFallible)
        ensures
            carries_library_message(self.inner(), r),
            !is_c_text(entity_name@) ==> fails_on_string(r),
            is_c_text(entity_name@) ==> unit_answered(
                self.inner(),
                NativeCall::Write { entity: entity_name@, params_json: None },
                r,
            ),
    {
        self.write_impl(entity_name, None)
    }

    /// Write the sample of output `entity_name` with JSON write parameters.
    pub fn write_with_params(&self, entity_name: &str, params_json: &str) -> (r: ConnectorFallible)
        ensures
            carries_library_message(self.inner(), r),
            !is_c_text(entity_name@) || !is_c_text(params_json@) ==> fails_on_string(r),
            is_c_text(entity_name@) && is_c_text(params_json@) ==> unit_answered(
                self.inner(),
                NativeCall::Write { entity: entity_name@, params_json: Some(params_json@) },
                r,
            ),
    {
        self.write_impl(entity_name, Some(params_json))
    }

    fn write_impl(&self, entity_name: &str, params_json: Option<&str>) -> (r: ConnectorFallible)
        ensures
            carries_library_message(self.inner(), r),
            !is_c_text(entity_name@) ==> fails_on_string(r),
            params_json matches Some(p) && !is_c_text(p@) ==> fails_on_string(r),
            is_c_text(entity_name@) && !(params_json matches Some(p) && !is_c_text(p@)) ==> unit_answered(
                self.inner(),
                NativeCall::Write { entity: entity_name@, params_json: opt_text(params_json) },
                r,
            ),
    {
        if let Err(e) = check_c_string(entity_name) {
            return Err(e);
        }
        if let Some(p) = params_json {
            if let Err(e) = check_c_string(p) {
                return Err(e);
            }
        }
        let code = self.0.write(entity_name, params_json);
        self.unit_of(code)
    }

    /// Fill the sample cache of input `entity_name`, leaving the samples in the reader.
    pub fn read(&self, entity_name: &str) -> (r: ConnectorFallible)
        ensures
            carries_library_message(self.inner(), r),
            !is_c_text(entity_name@) ==> fails_on_string(r),
            is_c_text(entity_name@) ==> unit_answered(self.inner(), NativeCall::Read { entity: entity_name@ }, r),
    {
        if let Err(e) = check_c_string(entity_name) {
            return Err(e);
        }
        let code = self.0.read(entity_name);
        self.unit_of(code)
    }

    /// Fill the sample cache of input `entity_name`, removing the samples from the reader.
    pub fn take(&self, entity_name: &str) -> (r: ConnectorFallible)
        ensures
            carries_library_message(self.inner(), r),
            !is_c_text(entity_name@) ==> fails_on_string(r),
            is_c_text(entity_name@) ==> unit_answered(self.inner(), NativeCall::Take { entity: entity_name@ }, r),
    {
        if let Err(e) = check_c_string(entity_name) {
            return Err(e);
        }
        let code = self.0.take(entity_name);
        self.unit_of(code)
    }

    /// Return the loan on the samples taken by input `entity_name`.
    pub fn return_loan(&self, entity_name: &str) -> (r: ConnectorFallible)
        ensures
            carries_library_message(self.inner(), r),
            !is_c_text(entity_name@) ==> fails_on_string(r),
            is_c_text(entity_name@) ==> unit_answered(
                self.inner(),
                NativeCall::ReturnLoan { entity: entity_name@ },
                r,
            ),
    {
        if let Err(e) = check_c_string(entity_name) {
            return Err(e);
        }
        let code = self.0.return_loan(entity_name);
        self.unit_of(code)
    }

    /// Wait for data on any input of the participant.
    pub fn wait_for_data(&self, timeout: Option<i32>) -> (r: ConnectorFallible)
        ensures
            carries_library_message(self.inner(), r),
            unit_answered(self.inner(), NativeCall::WaitForData { timeout_ms: native_timeout(timeout) }, r),
    {
        let t = native_timeout_ms(timeout);
        let code = self.0.wait_for_data(t);
        self.unit_of(code)
    }

    /// Reset all fields of the sample of output `entity_name`.
    pub fn clear(&self, entity_name: &str) -> (r: ConnectorFallible)
        ensures
            carries_library_message(self.inner(), r),
            !is_c_text(entity_name@) ==> fails_on_string(r),
            is_c_text(entity_name@) ==> unit_answered(self.inner(), NativeCall::Clear { entity: entity_name@ }, r),
    {
        if let Err(e) = check_c_string(entity_name) {
            return Err(e);
        }
        let code = self.0.clear(entity_name);
        self.unit_of(code)
    }

    /// A boolean field of the info of sample `index` of input `entity_name`.
    pub fn get_boolean_from_infos(&self, entity_name: &str, index: usize, name: &str) -> (r:
        ConnectorResult<bool>)
        requires
            index != i32::MAX as usize,
        ensures
            carries_library_message(self.inner(), r),
            !is_c_text(entity_name@) || !is_c_text(name@) ==> fails_on_string(r),
            is_c_text(entity_name@) && is_c_text(name@) ==> index_checked(
                r,
                index,
                bool_answered(
                    self.inner(),
                    NativeCall::GetBooleanFromInfos { entity: entity_name@, index: native_index(index), field: name@ },
                    r,
                ),
            ),
    {
        if let Err(e) = check_c_string(entity_name) {
            return Err(e);
        }
        if let Err(e) = check_c_string(name) {
            return Err(e);
        }
        let index = match ConnectorIndex::try_from_index(index) {
            Ok(i) => i,
            Err(e) => {
                return Err(e);
            },
        };
        let out = self.0.get_boolean_from_infos(entity_name, index.0, name);
        self.value_of(out.0, bool_of_native(out.1))
    }

    /// A field of the info of sample `index` of input `entity_name`, as JSON.
    pub fn get_json_from_infos(&self, entity_name: &str, index: usize, name: &str) -> (r:
        ConnectorResult<String>)
        requires
            index != i32::MAX as usize,
        ensures
            carries_library_message(self.inner(), r),
            !is_c_text(entity_name@) ==> fails_on_string(r),
            is_c_text(entity_name@) ==> index_checked(
                r,
                index,
                (!is_c_text(name@) ==> fails_on_string(r)) && (is_c_text(name@) ==> text_answered(
                    self.inner(),
                    NativeCall::GetJsonFromInfos { entity: entity_name@, index: native_index(index), field: name@ },
                    r,
                )),
            ),
    {
        if let Err(e) = check_c_string(entity_name) {
            return Err(e);
        }
        let index = match ConnectorIndex::try_from_index(index) {
            Ok(i) => i,
            Err(e) => {
                return Err(e);
            },
        };
        if let Err(e) = check_c_string(name) {
            return Err(e);
        }
        let out = self.0.get_json_from_infos(entity_name, index.0, name);
        self.string_of(out.0, out.1)
    }

    /// The number of samples in the cache of input `entity_name`.
    pub fn get_sample_count(&self, entity_name: &str) -> (r: ConnectorResult<usize>)
        ensures
            carries_library_message(self.inner(), r),
            !is_c_text(entity_name@) ==> fails_on_string(r),
            is_c_text(entity_name@) ==> count_answered(self.inner(), NativeCall::GetSampleCount { entity: entity_name@ }, r),
    {
        if let Err(e) = check_c_string(entity_name) {
            return Err(e);
        }
        let out = self.0.get_sample_count(entity_name);
        self.value_of(out.0, out.1)
    }

    /// A numeric field (as IEEE-754 bits) of sample `index` of input `entity_name`.
    pub fn get_number_from_sample(&self, entity_name: &str, index: usize, name: &str) -> (r:
        ConnectorResult<u64>)
        requires
            index != i32::MAX as usize,
        ensures
            carries_library_message(self.inner(), r),
            !is_c_text(entity_name@) || !is_c_text(name@) ==> fails_on_string(r),
            is_c_text(entity_name@) && is_c_text(name@) ==> index_checked(
                r,
                index,
                bits_answered(
                    self.inner(),
                    NativeCall::GetNumberFromSample { entity: entity_name@, index: native_index(index), field: name@ },
                    r,
                ),
            ),
    {
        if let Err(e) = check_c_string(entity_name) {
            return Err(e);
        }
        if let Err(e) = check_c_string(name) {
            return Err(e);
        }
        let index = match ConnectorIndex::try_from_index(index) {
            Ok(i) => i,
            Err(e) => {
                return Err(e);
            },
        };
        let out = self.0.get_number_from_sample(entity_name, index.0, name);
        self.value_of(out.0, out.1)
    }

    /// A boolean field of sample `index` of input `entity_name`.
    pub fn get_boolean_from_sample(&self, entity_name: &str, index: usize, name: &str) -> (r:
        ConnectorResult<bool>)
        requires
            index != i32::MAX as usize,
        ensures
            carries_library_message(self.inner(), r),
            !is_c_text(entity_name@) || !is_c_text(name@) ==> fails_on_string(r),
            is_c_text(entity_name@) && is_c_text(name@) ==> index_checked(
                r,
                index,
                bool_answered(
                    self.inner(),
                    NativeCall::GetBooleanFromSample { entity: entity_name@, index: native_index(index), field: name@ },
                    r,
                ),
            ),
    {
        if let Err(e) = check_c_string(entity_name) {
            return Err(e);
        }
        if let Err(e) = check_c_string(name) {
            return Err(e);
        }
        let index = match ConnectorIndex::try_from_index(index) {
            Ok(i) => i,
            Err(e) => {
                return Err(e);
            },
        };
        let out = self.0.get_boolean_from_sample(entity_name, index.0, name);
        self.value_of(out.0, bool_of_native(out.1))
    }

    /// A string field of sample `index` of input `entity_name`.
    pub fn get_string_from_sample(&self, entity_name: &str, index: usize, name: &str) -> (r:
        ConnectorResult<String>)
        requires
            index != i32::MAX as usize,
        ensures
            carries_library_message(self.inner(), r),
            !is_c_text(entity_name@) ==> fails_on_string(r),
            is_c_text(entity_name@) ==> index_checked(
                r,
                index,
                (!is_c_text(name@) ==> fails_on_string(r)) && (is_c_text(name@) ==> text_answered(
                    self.inner(),
                    NativeCall::GetStringFromSample { entity: entity_name@, index: native_index(index), field: name@ },
                    r,
                )),
            ),
    {
        if let Err(e) = check_c_string(entity_name) {
            return Err(e);
        }
        let index = match ConnectorIndex::try_from_index(index) {
            Ok(i) => i,
            Err(e) => {
                return Err(e);
            },
        };
        if let Err(e) = check_c_string(name) {
            return Err(e);
        }
        let out = self.0.get_string_from_sample(entity_name, index.0, name);
        self.string_of(out.0, out.1)
    }

    /// A field of sample `index` of input `entity_name`, of whatever kind it has.
    pub fn get_from_sample(&self, entity_name: &str, index: usize, name: &str) -> (r:
        ConnectorResult<SelectedValue>)
        requires
            index != i32::MAX as usize,
        ensures
            carries_library_message(self.inner(), r),
            !is_c_text(entity_name@) ==> fails_on_string(r),
            is_c_text(entity_name@) ==> index_checked(
                r,
                index,
                (!is_c_text(name@) ==> fails_on_string(r)) && (is_c_text(name@) ==> selected_answered(
                    self.inner(),
                    NativeCall::GetAnyFromSample { entity: entity_name@, index: native_index(index), field: name@ },
                    r,
                )),
            ),
    {
        if let Err(e) = check_c_string(entity_name) {
            return Err(e);
        }
        let index = match ConnectorIndex::try_from_index(index) {
            Ok(i) => i,
            Err(e) => {
                return Err(e);
            },
        };
        if let Err(e) = check_c_string(name) {
            return Err(e);
        }
        let out = self.0.get_any_from_sample(entity_name, index.0, name);
        self.selected_of(out.0, out.1)
    }

    /// A field of the info of sample `index` of input `entity_name`, of whatever kind it has.
    pub fn get_from_info(&self, entity_name: &str, index: usize, name: &str) -> (r:
        ConnectorResult<SelectedValue>)
        requires
            index != i32::MAX as usize,
        ensures
            carries_library_message(self.inner(), r),
            !is_c_text(entity_name@) ==> fails_on_string(r),
            is_c_text(entity_name@) ==> index_checked(
                r,
                index,
                (!is_c_text(name@) ==> fails_on_string(r)) && (is_c_text(name@) ==> selected_answered(
                    self.inner(),
                    NativeCall::GetAnyFromInfo { entity: entity_name@, index: native_index(index), field: name@ },
                    r,
                )),
            ),
    {
        if let Err(e) = check_c_string(entity_name) {
            return Err(e);
        }
        let index = match ConnectorIndex::try_from_index(index) {
            Ok(i) => i,
            Err(e) => {
                return Err(e);
            },
        };
        if let Err(e) = check_c_string(name) {
            return Err(e);
        }
        let out = self.0.get_any_from_info(entity_name, index.0, name);
        self.selected_of(out.0, out.1)
    }

    /// Sample `index` of input `entity_name`, as JSON.
    pub fn get_json_sample(&self, entity_name: &str, index: usize) -> (r: ConnectorResult<String>)
        requires
            index != i32::MAX as usize,
        ensures
            carries_library_message(self.inner(), r),
            !is_c_text(entity_name@) ==> fails_on_string(r),
            is_c_text(entity_name@) ==> index_checked(
                r,
                index,
                text_answered(
                    self.inner(),
                    NativeCall::GetJsonSample { entity: entity_name@, index: native_index(index) },
                    r,
                ),
            ),
    {
        if let Err(e) = check_c_string(entity_name) {
            return Err(e);
        }
        let index = match ConnectorIndex::try_from_index(index) {
            Ok(i) => i,
            Err(e) => {
                return Err(e);
            },
        };
        let out = self.0.get_json_sample(entity_name, index.0);
        self.string_of(out.0, out.1)
    }

    /// A member of sample `index` of input `entity_name`, as JSON.
    pub fn get_json_member(&self, entity_name: &str, index: usize, member_name: &str) -> (r:
        ConnectorResult<String>)
        requires
            index != i32::MAX as usize,
        ensures
            carries_library_message(self.inner(), r),
            !is_c_text(entity_name@) ==> fails_on_string(r),
            is_c_text(entity_name@) ==> index_checked(
                r,
                index,
                (!is_c_text(member_name@) ==> fails_on_string(r)) && (is_c_text(member_name@) ==> text_answered(
                    self.inner(),
                    NativeCall::GetJsonMember { entity: entity_name@, index: native_index(index), member: member_name@ },
                    r,
                )),
            ),
    {
        if let Err(e) = check_c_string(entity_name) {
            return Err(e);
        }
        let index = match ConnectorIndex::try_from_index(index) {
            Ok(i) => i,
            Err(e) => {
                return Err(e);
            },
        };
        if let Err(e) = check_c_string(member_name) {
            return Err(e);
        }
        let out = self.0.get_json_member(entity_name, index.0, member_name);
        self.string_of(out.0, out.1)
    }

    /// Set the whole sample of output `entity_name` from JSON.
    pub fn set_json_instance(&self, entity_name: &str, json: &str) -> (r: ConnectorFallible)
        ensures
            carries_library_message(self.inner(), r),
            !is_c_text(entity_name@) || !is_c_text(json@) ==> fails_on_string(r),
            is_c_text(entity_name@) && is_c_text(json@) ==> unit_answered(
                self.inner(),
                NativeCall::SetJsonInstance { entity: entity_name@, json: json@ },
                r,
            ),
    {
        if let Err(e) = check_c_string(entity_name) {
            return Err(e);
        }
        if let Err(e) = check_c_string(json) {
            return Err(e);
        }
        let code = self.0.set_json_instance(entity_name, json);
        self.unit_of(code)
    }

    /// The last error message of the native library, if it recorded a non-empty one.
    pub fn get_last_error_message() -> (m: Option<String>)
        ensures
            m matches Some(s) ==> s@.len() > 0,
            exists|native: Option<String>| #[trigger] N::global_answers(
                NativeCall::LastErrorMessage,
                NativeReply::Text(native),
            ) && m == nonempty_message_of(native),
    {
        nonempty_message(N::last_error_message())
    }

    /// The sample of output `entity_name`, as JSON.
    pub fn get_json_instance(&self, entity_name: &str) -> (r: ConnectorResult<String>)
        ensures
            carries_library_message(self.inner(), r),
            !is_c_text(entity_name@) ==> fails_on_string(r),
            is_c_text(entity_name@) ==> exists|text: Option<String>| #[trigger] self.inner().answers(
                NativeCall::GetJsonInstance { entity: entity_name@ },
                NativeReply::Text(text),
            ) && string_reports(r, ReturnCode::Success, text),
    {
        if let Err(e) = check_c_string(entity_name) {
            return Err(e);
        }
        let text = self.0.get_json_instance(entity_name);
        let ghost answer = text;
        let r = InvokeResult(ReturnCode::Success, text).into_string();
        assert(self.inner().answers(
            NativeCall::GetJsonInstance { entity: entity_name@ },
            NativeReply::Text(answer),
        ));
        r
    }

    /// The build identifiers of RTI Connext and of the native connector, with
    /// placeholders for identifiers that the native library does not give.
    pub fn get_build_versions() -> (r: ConnectorResult<(String, String)>)
        ensures
            build_versions_answered::<N>(r),
            carries_last_message::<N, (String, String)>(r),
    {
        let out = N::build_versions();
        Self::finish_static(build_versions_of(out.0, out.1, out.2))
    }
}

/// The result of the native answer `code` about the build identifiers
/// `client` and `connector`: the identifiers, with placeholders for missing
/// ones, on success, and the failure of the return code otherwise.
pub fn build_versions_of(code: i32, client: Option<String>, connector: Option<String>) -> (r:
    ConnectorResult<(String, String)>)
    ensures
        build_versions_reports(r, return_code_of(code), client, connector),
        r matches Err(e) ==> e.native_message is None,
{
    match InvokeResult(ReturnCode::from_native(code), (client, connector)).into_result() {
        Ok((client, connector)) => {
            let client = match client {
                Some(s) => s,
                None => String::from_str("<Unknown Client>"),
            };
            let connector = match connector {
                Some(s) => s,
                None => String::from_str("<Unknown Connector>"),
            };
            Ok((client, connector))
        },
        Err(e) => Err(e),
    }
}

/// `r` is what comes of setting the field `field` of the sample of output
/// `entity` to `value` through the participant `n`, with the setter of the
/// value's kind.
pub open spec fn set_value_answered<N: NativeApi>(
    n: N,
    entity: Seq<char>,
    field: Seq<char>,
    value: SelectedValue,
    r: ConnectorFallible,
) -> bool {
    match value {
        SelectedValue::Number(bits) => unit_answered(
            n,
            NativeCall::SetNumberIntoSamples { entity, field, value_bits: bits },
            r,
        ),
        SelectedValue::Boolean(b) => unit_answered(
            n,
            NativeCall::SetBooleanIntoSamples { entity, field, value: if b { 1i32 } else { 0i32 } },
            r,
        ),
        SelectedValue::String(s) => if is_c_text(s@) {
            unit_answered(n, NativeCall::SetStringIntoSamples { entity, field, text: s@ }, r)
        } else {
            fails_on_string(r)
        },
    }
}

/// The finalization of the global state of RTI Connext.
///
/// The globals can only be finalized when no connector is left; the
/// application finalizes them when a guard of its own goes out of scope.
#[derive(Debug)]
pub struct GlobalsDropGuard;

impl GlobalsDropGuard {
    /// Finalize the global state of RTI Connext.
    pub fn finalize_connext_globals<N: NativeApi>() -> (r: ConnectorFallible)
        ensures
            global_unit_answered::<N>(NativeCall::FinalizeGlobals, r),
            carries_last_message::<N, ()>(r),
    {
        let code = N::finalize_globals();
        FfiConnector::<N>::finish_static(InvokeResult(ReturnCode::from_native(code), ()).into_result())
    }
}

/// Setting a field to a boolean through [`FfiConnector::set_into_samples`]
/// makes the native boolean setter's call with the C boolean of the value:
/// 1 for `true`, 0 for `false`.
pub proof fn law_boolean_value_is_set_as_c_boolean<N: NativeApi>(
    n: N,
    entity: Seq<char>,
    field: Seq<char>,
    b: bool,
    r: ConnectorFallible,
)
    ensures
        set_value_answered(n, entity, field, SelectedValue::Boolean(b), r) == unit_answered(
            n,
            NativeCall::SetBooleanIntoSamples { entity, field, value: if b { 1i32 } else { 0i32 } },
            r,
        ),
        !b ==> (set_value_answered(n, entity, field, SelectedValue::Boolean(b), r) == unit_answered(
            n,
            NativeCall::SetBooleanIntoSamples { entity, field, value: 0i32 },
            r,
        )),
{
}

/// A dynamically typed value that the native library reports with success is
/// decoded as it was given: a number keeps the double's bits, a boolean is
/// the C boolean's truth, and a string is the string itself.
pub proof fn law_selected_value_is_decoded_exactly(r: ConnectorResult<SelectedValue>, h: NativeAnyValueHolder)
    requires
        selected_reports(r, ReturnCode::Success, h),
    ensures
        h.selected == 1 ==> r == Ok::<SelectedValue, ConnectorError>(SelectedValue::Number(h.double_bits)),
        h.selected == 2 ==> r == Ok::<SelectedValue, ConnectorError>(SelectedValue::Boolean(h.bool_value != 0)),
        h.selected == 3 && h.string_value is Some ==> r == Ok::<SelectedValue, ConnectorError>(
            SelectedValue::String(h.string_value->Some_0),
        ),
{
}

/// When the only answer that the participant may give to a dynamically typed
/// read is a success with the holder `h`, the read gives the value of `h`
/// unchanged: a number with exactly the bits that the library gave.
pub proof fn law_selected_read_gives_the_answered_value<N: NativeApi>(
    n: N,
    call: NativeCall,
    h: NativeAnyValueHolder,
    r: ConnectorResult<SelectedValue>,
)
    requires
        forall|reply: NativeReply| #[trigger] n.answers(call, reply) ==> reply == NativeReply::CodeAny(0, h),
        selected_answered(n, call, r),
    ensures
        h.selected == 1 ==> r == Ok::<SelectedValue, ConnectorError>(SelectedValue::Number(h.double_bits)),
        h.selected == 2 ==> r == Ok::<SelectedValue, ConnectorError>(SelectedValue::Boolean(h.bool_value != 0)),
        h.selected == 3 && h.string_value is Some ==> r == Ok::<SelectedValue, ConnectorError>(
            SelectedValue::String(h.string_value->Some_0),
        ),
{
    let (code, g) = choose|code: i32, g: NativeAnyValueHolder| #[trigger] n.answers(call, NativeReply::CodeAny(code, g))
        && selected_reports(r, return_code_of(code), g);
    assert(NativeReply::CodeAny(code, g) == NativeReply::CodeAny(0, h));
    law_selected_value_is_decoded_exactly(r, h);
}

/// When the only answer that the participant may give to a numeric read is a
/// success with the bits `bits`, the read gives exactly those bits: the
/// number, its sign included, is not altered.
pub proof fn law_number_read_gives_the_answered_bits<N: NativeApi>(
    n: N,
    call: NativeCall,
    bits: u64,
    r: ConnectorResult<u64>,
)
    requires
        forall|reply: NativeReply| #[trigger] n.answers(call, reply) ==> reply == NativeReply::CodeBits(0, bits),
        bits_answered(n, call, r),
    ensures
        r == Ok::<u64, ConnectorError>(bits),
{
    let (code, b) = choose|code: i32, b: u64| #[trigger] n.answers(call, NativeReply::CodeBits(code, b))
        && reports(r, return_code_of(code), b);
    assert(NativeReply::CodeBits(code, b) == NativeReply::CodeBits(0, bits));
}

/// Every successful numeric read gives bits that the participant answered.
pub proof fn law_number_read_is_an_answered_value<N: NativeApi>(n: N, call: NativeCall, v: u64)
    requires
        bits_answered(n, call, Ok::<u64, ConnectorError>(v)),
    ensures
        exists|code: i32| #[trigger] n.answers(call, NativeReply::CodeBits(code, v)) && code == 0,
{
    let (code, b) = choose|code: i32, b: u64| #[trigger] n.answers(call, NativeReply::CodeBits(code, b))
        && reports(Ok::<u64, ConnectorError>(v), return_code_of(code), b);
    assert(n.answers(call, NativeReply::CodeBits(code, v)));
}

/// When the only answer that a reader may give to a wait for matched
/// publications is a success with the change `change`, the wait gives exactly
/// that change, a negative one (publications unmatched) included.
pub proof fn law_publication_change_is_reported_exactly<R: NativeReader>(
    rd: R,
    call: NativeCall,
    change: i32,
    r: ConnectorResult<i32>,
)
    requires
        forall|reply: NativeReply| #[trigger] rd.answers(call, reply) ==> reply == NativeReply::CodeInt(0, change),
        reader_int_answered(rd, call, r),
    ensures
        r == Ok::<i32, ConnectorError>(change),
{
    let (code, v) = choose|code: i32, v: i32| #[trigger] rd.answers(call, NativeReply::CodeInt(code, v))
        && reports(r, return_code_of(code), v);
    assert(NativeReply::CodeInt(code, v) == NativeReply::CodeInt(0, change));
}

/// Every successful wait for matched publications gives a change that the
/// reader answered.
pub proof fn law_publication_change_is_an_answered_value<R: NativeReader>(rd: R, call: NativeCall, v: i32)
    requires
        reader_int_answered(rd, call, Ok::<i32, ConnectorError>(v)),
    ensures
        exists|code: i32| #[trigger] rd.answers(call, NativeReply::CodeInt(code, v)) && code == 0,
{
    let (code, w) = choose|code: i32, w: i32| #[trigger] rd.answers(call, NativeReply::CodeInt(code, w))
        && reports(Ok::<i32, ConnectorError>(v), return_code_of(code), w);
    assert(rd.answers(call, NativeReply::CodeInt(code, v)));
}

/// When the only answer that a writer may give to a wait for matched
/// subscriptions is a success with the change `change`, the wait gives
/// exactly that change, a negative one (subscriptions unmatched) included.
pub proof fn law_subscription_change_is_reported_exactly<W: NativeWriter>(
    w: W,
    call: NativeCall,
    change: i32,
    r: ConnectorResult<i32>,
)
    requires
        forall|reply: NativeReply| #[trigger] w.answers(call, reply) ==> reply == NativeReply::CodeInt(0, change),
        writer_int_answered(w, call, r),
    ensures
        r == Ok::<i32, ConnectorError>(change),
{
    let (code, v) = choose|code: i32, v: i32| #[trigger] w.answers(call, NativeReply::CodeInt(code, v))
        && reports(r, return_code_of(code), v);
    assert(NativeReply::CodeInt(code, v) == NativeReply::CodeInt(0, change));
}

/// Every successful wait for matched subscriptions gives a change that the
/// writer answered.
pub proof fn law_subscription_change_is_an_answered_value<W: NativeWriter>(w: W, call: NativeCall, v: i32)
    requires
        writer_int_answered(w, call, Ok::<i32, ConnectorError>(v)),
    ensures
        exists|code: i32| #[trigger] w.answers(call, NativeReply::CodeInt(code, v)) && code == 0,
{
    let (code, x) = choose|code: i32, x: i32| #[trigger] w.answers(call, NativeReply::CodeInt(code, x))
        && reports(Ok::<i32, ConnectorError>(v), return_code_of(code), x);
    assert(w.answers(call, NativeReply::CodeInt(code, v)));
}

} // verus!
