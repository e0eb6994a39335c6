//! The boundary with the native RTI Connector C library.
//!
//! The native library is an outside service: what it answers depends on the
//! DDS domain, on the XML configuration and on timing. This module names the
//! operations of that library that the Connector API drives, as the traits
//! [`NativeApi`], [`NativeReader`] and [`NativeWriter`], and the plain values
//! that cross the boundary: integer return codes ([`ReturnCode`]), integer
//! kinds of dynamic values ([`AnyValue`]), and strings (`None` standing for a
//! null or non-UTF-8 native string).
//!
//! Each trait holds spec relations between the calls made to the native
//! library ([`NativeCall`], with their arguments) and the answers that it may
//! give ([`NativeReply`]). The relations are left open: each implementation
//! has its own, and this library assumes nothing of them. A method's
//! postcondition only names its answer, so that every contract of the library
//! can state what is handed to the native library and what comes of each
//! answer. Doubles cross the boundary as their IEEE-754 bit patterns (`u64`),
//! so that no floating-point value enters the library.

use vstd::prelude::*;

use vstd::utf8::encode_utf8;

use crate::text::int_decimal;

verus! {

/// A native string may be handed to the C library only if it holds no NUL byte.
pub open spec fn is_c_string(bytes: Seq<u8>) -> bool {
    !bytes.contains(0u8)
}

/// The text `s` may be handed to the C library: its UTF-8 encoding holds no NUL byte.
pub open spec fn is_c_text(s: Seq<char>) -> bool {
    is_c_string(encode_utf8(s))
}

/// The return codes of the native library.
#[derive(Debug, Clone, Copy, PartialEq, Eq, Structural)]
pub enum ReturnCode {
    /// Success.
    Success,
    /// Generic failure.
    Error,
    /// The entity was already deleted.
    AlreadyDeleted,
    /// A wait expired.
    Timeout,
    /// No data was available.
    NoData,
    /// The operation is not allowed in the current state.
    IllegalOperation,
    /// A code that the library does not know.
    Unknown(i32),
}

/// The native codes that the library folds into [`ReturnCode::Error`].
pub open spec fn is_folded_error_code(v: i32) -> bool {
    (2 <= v <= 8) || v == 1000
}

/// The [`ReturnCode`] of the native value `v`.
pub open spec fn return_code_of(v: i32) -> ReturnCode {
    if v == 0 {
        ReturnCode::Success
    } else if v == 1 || is_folded_error_code(v) {
        ReturnCode::Error
    } else if v == 9 {
        ReturnCode::AlreadyDeleted
    } else if v == 10 {
        ReturnCode::Timeout
    } else if v == 11 {
        ReturnCode::NoData
    } else if v == 12 {
        ReturnCode::IllegalOperation
    } else {
        ReturnCode::Unknown(v)
    }
}

/// The native value of the [`ReturnCode`] `rc`.
pub open spec fn native_value_of(rc: ReturnCode) -> i32 {
    match rc {
        ReturnCode::Success => 0,
        ReturnCode::Error => 1,
        ReturnCode::AlreadyDeleted => 9,
        ReturnCode::Timeout => 10,
        ReturnCode::NoData => 11,
        ReturnCode::IllegalOperation => 12,
        ReturnCode::Unknown(code) => code,
    }
}

/// The text that describes `rc`.
pub open spec fn return_code_text(rc: ReturnCode) -> Seq<char> {
    match rc {
        ReturnCode::Success => "OK"@,
        ReturnCode::Error => "Error"@,
        ReturnCode::AlreadyDeleted => "Already Deleted"@,
        ReturnCode::Timeout => "Timeout"@,
        ReturnCode::NoData => "No Data"@,
        ReturnCode::IllegalOperation => "Illegal Operation"@,
        ReturnCode::Unknown(code) => "Unknown error code: "@ + int_decimal(code as int),
    }
}

impl ReturnCode {
    /// A return code that `from_native` can produce: `Unknown` holds only codes
    /// that have no name of their own.
    pub open spec fn is_canonical(self) -> bool {
        match self {
            ReturnCode::Unknown(v) => return_code_of(v) == ReturnCode::Unknown(v),
            _ => true,
        }
    }

    /// The native value of this return code.
    pub fn as_native(&self) -> (v: i32)
        ensures
            v == native_value_of(*self),
    {
        match self {
            ReturnCode::Success => 0,
            ReturnCode::Error => 1,
            ReturnCode::AlreadyDeleted => 9,
            ReturnCode::Timeout => 10,
            ReturnCode::NoData => 11,
            ReturnCode::IllegalOperation => 12,
            ReturnCode::Unknown(code) => *code,
        }
    }

    /// The return code of the native value `value`.
    pub fn from_native(value: i32) -> (rc: ReturnCode)
        ensures
            rc == return_code_of(value),
            rc.is_canonical(),
    {
        match value {
            0 => ReturnCode::Success,
            1 => ReturnCode::Error,
            9 => ReturnCode::AlreadyDeleted,
            10 => ReturnCode::Timeout,
            11 => ReturnCode::NoData,
            12 => ReturnCode::IllegalOperation,
            2 | 3 | 4 | 5 | 6 | 7 | 8 | 1000 => ReturnCode::Error,
            _ => ReturnCode::Unknown(value),
        }
    }

    /// The text that describes this return code.
    pub fn to_text(&self) -> (s: String)
        ensures
            s@ == return_code_text(*self),
    {
        match self {
            ReturnCode::Success => String::from_str("OK"),
            ReturnCode::Error => String::from_str("Error"),
            ReturnCode::AlreadyDeleted => String::from_str("Already Deleted"),
            ReturnCode::Timeout => String::from_str("Timeout"),
            ReturnCode::NoData => String::from_str("No Data"),
            ReturnCode::IllegalOperation => String::from_str("Illegal Operation"),
            ReturnCode::Unknown(code) => {
                let mut s = String::from_str("Unknown error code: ");
                crate::text::push_signed_decimal(&mut s, *code as i64);
                s
            },
        }
    }
}

/// Reading a native value as a return code and writing it back gives the same
/// return code; the value itself comes back unchanged unless it is one of the
/// codes folded into `Error`.
pub proof fn lemma_return_code_round_trip(v: i32)
    ensures
        return_code_of(native_value_of(return_code_of(v))) == return_code_of(v),
        !is_folded_error_code(v) ==> native_value_of(return_code_of(v)) == v,
{
}

/// Every canonical return code survives being written as a native value and
/// read back.
pub proof fn lemma_canonical_return_code_round_trip(rc: ReturnCode)
    requires
        rc.is_canonical(),
    ensures
        return_code_of(native_value_of(rc)) == rc,
{
}

/// The kinds of value that the native library returns for dynamic accesses.
#[derive(Debug, Clone, Copy, PartialEq, Eq, Structural)]
pub enum AnyValue {
    /// No value was selected.
    NoValue,
    /// A number.
    Number,
    /// A boolean.
    Boolean,
    /// A string.
    String,
    /// A kind that the library does not know.
    Unknown(i32),
}

/// The [`AnyValue`] of the native value `v`.
pub open spec fn any_value_of(v: i32) -> AnyValue {
    if v == 0 {
        AnyValue::NoValue
    } else if v == 1 {
        AnyValue::Number
    } else if v == 2 {
        AnyValue::Boolean
    } else if v == 3 {
        AnyValue::String
    } else {
        AnyValue::Unknown(v)
    }
}

/// The native value of the [`AnyValue`] `a`.
pub open spec fn any_native_value_of(a: AnyValue) -> i32 {
    match a {
        AnyValue::NoValue => 0,
        AnyValue::Number => 1,
        AnyValue::Boolean => 2,
        AnyValue::String => 3,
        AnyValue::Unknown(code) => code,
    }
}

impl AnyValue {
    /// A kind that `from_native` can produce.
    pub open spec fn is_canonical(self) -> bool {
        match self {
            AnyValue::Unknown(v) => !(0 <= v <= 3),
            _ => true,
        }
    }

    /// The native value of this kind.
    pub fn as_native(&self) -> (v: i32)
        ensures
            v == any_native_value_of(*self),
    {
        match self {
            AnyValue::NoValue => 0,
            AnyValue::Number => 1,
            AnyValue::Boolean => 2,
            AnyValue::String => 3,
            AnyValue::Unknown(code) => *code,
        }
    }

    /// The kind of the native value `value`.
    pub fn from_native(value: i32) -> (a: AnyValue)
        ensures
            a == any_value_of(value),
            a.is_canonical(),
    {
        match value {
            0 => AnyValue::NoValue,
            1 => AnyValue::Number,
            2 => AnyValue::Boolean,
            3 => AnyValue::String,
            other => AnyValue::Unknown(other),
        }
    }
}

/// Every native kind value survives being read as an [`AnyValue`] and written
/// back, and every canonical kind survives the opposite trip.
pub proof fn lemma_any_value_round_trip(v: i32, a: AnyValue)
    ensures
        any_native_value_of(any_value_of(v)) == v,
        a.is_canonical() ==> any_value_of(any_native_value_of(a)) == a,
{
}

/// What the native library fills in when asked for a dynamically typed value:
/// the selected kind, and one slot for each kind.
#[derive(Debug)]
pub struct NativeAnyValueHolder {
    /// The native kind of the value ([`AnyValue`]).
    pub selected: i32,
    /// The bit pattern of the double, for numbers.
    pub double_bits: u64,
    /// The boolean as a C integer, for booleans.
    pub bool_value: i32,
    /// The string, for strings (`None` for a null or undecodable string).
    pub string_value: Option<String>,
}

/// A call to the native library, with the arguments that it is handed:
/// strings by their text, sample indices as the 1-based indices of the C API,
/// timeouts in milliseconds.
pub enum NativeCall {
    Create { config_name: Seq<char>, config_file: Seq<char> },
    GetDataWriter { entity: Seq<char> },
    GetDataReader { entity: Seq<char> },
    GetNativeSample { entity: Seq<char>, index: i32 },
    SetNumberIntoSamples { entity: Seq<char>, field: Seq<char>, value_bits: u64 },
    SetBooleanIntoSamples { entity: Seq<char>, field: Seq<char>, value: i32 },
    SetStringIntoSamples { entity: Seq<char>, field: Seq<char>, text: Seq<char> },
    ClearMember { entity: Seq<char>, field: Seq<char> },
    Write { entity: Seq<char>, params_json: Option<Seq<char>> },
    Read { entity: Seq<char> },
    Take { entity: Seq<char> },
    ReturnLoan { entity: Seq<char> },
    WaitForData { timeout_ms: i32 },
    Clear { entity: Seq<char> },
    GetBooleanFromInfos { entity: Seq<char>, index: i32, field: Seq<char> },
    GetJsonFromInfos { entity: Seq<char>, index: i32, field: Seq<char> },
    GetSampleCount { entity: Seq<char> },
    GetNumberFromSample { entity: Seq<char>, index: i32, field: Seq<char> },
    GetBooleanFromSample { entity: Seq<char>, index: i32, field: Seq<char> },
    GetStringFromSample { entity: Seq<char>, index: i32, field: Seq<char> },
    GetAnyFromSample { entity: Seq<char>, index: i32, field: Seq<char> },
    GetAnyFromInfo { entity: Seq<char>, index: i32, field: Seq<char> },
    GetJsonSample { entity: Seq<char>, index: i32 },
    GetJsonMember { entity: Seq<char>, index: i32, member: Seq<char> },
    SetJsonInstance { entity: Seq<char>, json: Seq<char> },
    GetJsonInstance { entity: Seq<char> },
    LastErrorMessage,
    BuildVersions,
    FinalizeGlobals,
    WaitForMatchedPublication { timeout_ms: i32 },
    WaitForDataOnReader { timeout_ms: i32 },
    GetMatchedPublications,
    WaitForMatchedSubscription { timeout_ms: i32 },
    WaitForAcknowledgments { timeout_ms: i32 },
    GetMatchedSubscriptions,
}

/// What the native library answers to a call: its return code and the values
/// that it hands back.
pub enum NativeReply {
    /// A return code.
    Code(i32),
    /// A return code and an integer (a change in a count, or a C boolean).
    CodeInt(i32, i32),
    /// A return code and a number of samples.
    CodeCount(i32, usize),
    /// A return code and the bits of a double.
    CodeBits(i32, u64),
    /// A return code and a string (`None` for a null or non-UTF-8 string).
    CodeText(i32, Option<String>),
    /// A return code and a dynamically typed value.
    CodeAny(i32, NativeAnyValueHolder),
    /// A string alone.
    Text(Option<String>),
    /// A return code and the build identifiers of RTI Connext and of the
    /// native connector.
    Versions(i32, Option<String>, Option<String>),
}

/// The text of an optional string handed to the native library.
pub open spec fn opt_text(s: Option<&str>) -> Option<Seq<char>> {
    match s {
        Some(p) => Some(p@),
        None => None,
    }
}

/// A DDS `DataReader` of the native library.
///
/// `answers(call, reply)` is the relation between the calls made to a reader
/// and the answers that it may give; each implementation has its own, which
/// this library leaves open. The `ensures` of each method only names its
/// answer: it is the answer of this reader to this call with these arguments.
pub trait NativeReader {
    /// The native reader may answer `reply` to `call`.
    spec fn answers(&self, call: NativeCall, reply: NativeReply) -> bool;

    /// Wait for a publication to match or unmatch; the code and the change in
    /// the number of matched publications.
    fn wait_for_matched_publication(&self, timeout_ms: i32) -> (r: (i32, i32))
        ensures
            self.answers(NativeCall::WaitForMatchedPublication { timeout_ms }, NativeReply::CodeInt(r.0, r.1)),
    ;

    /// Wait for data on this reader; the return code.
    fn wait_for_data(&self, timeout_ms: i32) -> (r: i32)
        ensures
            self.answers(NativeCall::WaitForDataOnReader { timeout_ms }, NativeReply::Code(r)),
    ;

    /// The matched publications as JSON.
    fn get_matched_publications(&self) -> (r: (i32, Option<String>))
        ensures
            self.answers(NativeCall::GetMatchedPublications, NativeReply::CodeText(r.0, r.1)),
    ;

    /// The last error message recorded by the native library.
    fn last_error_message(&self) -> (r: Option<String>)
        ensures
            self.answers(NativeCall::LastErrorMessage, NativeReply::Text(r)),
    ;
}

/// A DDS `DataWriter` of the native library.
///
/// As for [`NativeReader`], `answers` is the writer's own, open relation
/// between calls and answers, which the `ensures` only name.
pub trait NativeWriter {
    /// The native writer may answer `reply` to `call`.
    spec fn answers(&self, call: NativeCall, reply: NativeReply) -> bool;

    /// Wait for a subscription to match or unmatch; the code and the change in
    /// the number of matched subscriptions.
    fn wait_for_matched_subscription(&self, timeout_ms: i32) -> (r: (i32, i32))
        ensures
            self.answers(NativeCall::WaitForMatchedSubscription { timeout_ms }, NativeReply::CodeInt(r.0, r.1)),
    ;

    /// Wait for the acknowledgment of all written samples; the return code.
    fn wait_for_acknowledgments(&self, timeout_ms: i32) -> (r: i32)
        ensures
            self.answers(NativeCall::WaitForAcknowledgments { timeout_ms }, NativeReply::Code(r)),
    ;

    /// The matched subscriptions as JSON.
    fn get_matched_subscriptions(&self) -> (r: (i32, Option<String>))
        ensures
            self.answers(NativeCall::GetMatchedSubscriptions, NativeReply::CodeText(r.0, r.1)),
    ;

    /// The last error message recorded by the native library.
    fn last_error_message(&self) -> (r: Option<String>)
        ensures
            self.answers(NativeCall::LastErrorMessage, NativeReply::Text(r)),
    ;
}

/// A native connector: a DDS `DomainParticipant` created from an XML
/// configuration, with its readers and writers.
///
/// Every method that names an entity or a field is handed strings without
/// NUL bytes, and 1-based sample indices, as the C library requires.
///
/// The spec functions of this trait are relations between the calls made to
/// the native library and the answers that it may give. Each implementation
/// has its own, which this library leaves open: what the C library answers
/// depends on the DDS domain, the XML configuration and timing. The `ensures`
/// of each method only names its answer (it is the answer to this call with
/// these arguments), so that the contracts of this library can say what is
/// handed to the native library and what comes of each answer.
pub trait NativeApi: Sized {
    /// The native reader handle.
    type Reader: NativeReader;

    /// The native writer handle.
    type Writer: NativeWriter;

    /// The native sample handle.
    type Sample;

    /// The native library may answer `reply` to `call`, a creation of a participant.
    spec fn creates(call: NativeCall, reply: Option<Self>) -> bool;

    /// The participant may answer `reply` to `call`, a lookup of a writer.
    spec fn writer_lookup(&self, call: NativeCall, reply: Option<Self::Writer>) -> bool;

    /// The participant may answer `reply` to `call`, a lookup of a reader.
    spec fn reader_lookup(&self, call: NativeCall, reply: Option<Self::Reader>) -> bool;

    /// The participant may answer `reply` to `call`, a lookup of a native sample.
    spec fn sample_lookup(&self, call: NativeCall, reply: Option<Self::Sample>) -> bool;

    /// The participant may answer `reply` to `call`.
    spec fn answers(&self, call: NativeCall, reply: NativeReply) -> bool;

    /// The native library may answer `reply` to `call`, which names no participant.
    spec fn global_answers(call: NativeCall, reply: NativeReply) -> bool;

    /// Create the participant `config_name` of the XML file `config_file`.
    fn create(config_name: &str, config_file: &str) -> (r: Option<Self>)
        requires
            is_c_text(config_name@),
            is_c_text(config_file@),
        ensures
            Self::creates(NativeCall::Create { config_name: config_name@, config_file: config_file@ }, r),
    ;

    /// The writer named `entity`, if the participant holds one.
    fn get_datawriter(&self, entity: &str) -> (r: Option<Self::Writer>)
        requires
            is_c_text(entity@),
        ensures
            self.writer_lookup(NativeCall::GetDataWriter { entity: entity@ }, r),
    ;

    /// The reader named `entity`, if the participant holds one.
    fn get_datareader(&self, entity: &str) -> (r: Option<Self::Reader>)
        requires
            is_c_text(entity@),
        ensures
            self.reader_lookup(NativeCall::GetDataReader { entity: entity@ }, r),
    ;

    /// The native sample of an output at a 1-based index, if there is one.
    fn get_native_sample(&self, entity: &str, index: i32) -> (r: Option<Self::Sample>)
        requires
            is_c_text(entity@),
        ensures
            self.sample_lookup(NativeCall::GetNativeSample { entity: entity@, index }, r),
    ;

    /// Set a numeric field (given as its IEEE-754 bits) of an output's sample.
    fn set_number_into_samples(&self, entity: &str, field: &str, value_bits: u64) -> (r: i32)
        requires
            is_c_text(entity@),
            is_c_text(field@),
        ensures
            self.answers(
                NativeCall::SetNumberIntoSamples { entity: entity@, field: field@, value_bits },
                NativeReply::Code(r),
            ),
    ;

    /// Set a boolean field (as a C integer) of an output's sample.
    fn set_boolean_into_samples(&self, entity: &str, field: &str, value: i32) -> (r: i32)
        requires
            is_c_text(entity@),
            is_c_text(field@),
        ensures
            self.answers(
                NativeCall::SetBooleanIntoSamples { entity: entity@, field: field@, value },
                NativeReply::Code(r),
            ),
    ;

    /// Set a string field of an output's sample.
    fn set_string_into_samples(&self, entity: &str, field: &str, value: &str) -> (r: i32)
        requires
            is_c_text(entity@),
            is_c_text(field@),
            is_c_text(value@),
        ensures
            self.answers(
                NativeCall::SetStringIntoSamples { entity: entity@, field: field@, text: value@ },
                NativeReply::Code(r),
            ),
    ;

    /// Reset one field of an output's sample.
    fn clear_member(&self, entity: &str, field: &str) -> (r: i32)
        requires
            is_c_text(entity@),
            is_c_text(field@),
        ensures
            self.answers(NativeCall::ClearMember { entity: entity@, field: field@ }, NativeReply::Code(r)),
    ;

    /// Write an output's sample, with optional JSON write parameters.
    fn write(&self, entity: &str, params_json: Option<&str>) -> (r: i32)
        requires
            is_c_text(entity@),
            params_json matches Some(p) ==> is_c_text(p@),
        ensures
            self.answers(
                NativeCall::Write { entity: entity@, params_json: opt_text(params_json) },
                NativeReply::Code(r),
            ),
    ;

    /// Fill an input's sample cache, leaving the samples in the reader.
    fn read(&self, entity: &str) -> (r: i32)
        requires
            is_c_text(entity@),
        ensures
            self.answers(NativeCall::Read { entity: entity@ }, NativeReply::Code(r)),
    ;

    /// Fill an input's sample cache, removing the samples from the reader.
    fn take(&self, entity: &str) -> (r: i32)
        requires
            is_c_text(entity@),
        ensures
            self.answers(NativeCall::Take { entity: entity@ }, NativeReply::Code(r)),
    ;

    /// Return the loan on an input's taken samples.
    fn return_loan(&self, entity: &str) -> (r: i32)
        requires
            is_c_text(entity@),
        ensures
            self.answers(NativeCall::ReturnLoan { entity: entity@ }, NativeReply::Code(r)),
    ;

    /// Wait for data on any input.
    fn wait_for_data(&self, timeout_ms: i32) -> (r: i32)
        ensures
            self.answers(NativeCall::WaitForData { timeout_ms }, NativeReply::Code(r)),
    ;

    /// Reset all fields of an output's sample.
    fn clear(&self, entity: &str) -> (r: i32)
        requires
            is_c_text(entity@),
        ensures
            self.answers(NativeCall::Clear { entity: entity@ }, NativeReply::Code(r)),
    ;

    /// A boolean field (as a C integer) of a sample's info.
    fn get_boolean_from_infos(&self, entity: &str, index: i32, field: &str) -> (r: (i32, i32))
        requires
            is_c_text(entity@),
            is_c_text(field@),
        ensures
            self.answers(
                NativeCall::GetBooleanFromInfos { entity: entity@, index, field: field@ },
                NativeReply::CodeInt(r.0, r.1),
            ),
    ;

    /// A field of a sample's info, as JSON.
    fn get_json_from_infos(&self, entity: &str, index: i32, field: &str) -> (r: (i32, Option<String>))
        requires
            is_c_text(entity@),
            is_c_text(field@),
        ensures
            self.answers(
                NativeCall::GetJsonFromInfos { entity: entity@, index, field: field@ },
                NativeReply::CodeText(r.0, r.1),
            ),
    ;

    /// The number of samples in an input's cache (the native double, truncated
    /// towards zero and saturated to the range of `usize`).
    fn get_sample_count(&self, entity: &str) -> (r: (i32, usize))
        requires
            is_c_text(entity@),
        ensures
            self.answers(NativeCall::GetSampleCount { entity: entity@ }, NativeReply::CodeCount(r.0, r.1)),
    ;

    /// A numeric field (as IEEE-754 bits) of a sample.
    fn get_number_from_sample(&self, entity: &str, index: i32, field: &str) -> (r: (i32, u64))
        requires
            is_c_text(entity@),
            is_c_text(field@),
        ensures
            self.answers(
                NativeCall::GetNumberFromSample { entity: entity@, index, field: field@ },
                NativeReply::CodeBits(r.0, r.1),
            ),
    ;

    /// A boolean field (as a C integer) of a sample.
    fn get_boolean_from_sample(&self, entity: &str, index: i32, field: &str) -> (r: (i32, i32))
        requires
            is_c_text(entity@),
            is_c_text(field@),
        ensures
            self.answers(
                NativeCall::GetBooleanFromSample { entity: entity@, index, field: field@ },
                NativeReply::CodeInt(r.0, r.1),
            ),
    ;

    /// A string field of a sample.
    fn get_string_from_sample(&self, entity: &str, index: i32, field: &str) -> (r: (
        i32,
        Option<String>,
    ))
        requires
            is_c_text(entity@),
            is_c_text(field@),
        ensures
            self.answers(
                NativeCall::GetStringFromSample { entity: entity@, index, field: field@ },
                NativeReply::CodeText(r.0, r.1),
            ),
    ;

    /// A field of a sample, of whatever kind it has.
    fn get_any_from_sample(&self, entity: &str, index: i32, field: &str) -> (r: (
        i32,
        NativeAnyValueHolder,
    ))
        requires
            is_c_text(entity@),
            is_c_text(field@),
        ensures
            self.answers(
                NativeCall::GetAnyFromSample { entity: entity@, index, field: field@ },
                NativeReply::CodeAny(r.0, r.1),
            ),
    ;

    /// A field of a sample's info, of whatever kind it has.
    fn get_any_from_info(&self, entity: &str, index: i32, field: &str) -> (r: (
        i32,
        NativeAnyValueHolder,
    ))
        requires
            is_c_text(entity@),
            is_c_text(field@),
        ensures
            self.answers(
                NativeCall::GetAnyFromInfo { entity: entity@, index, field: field@ },
                NativeReply::CodeAny(r.0, r.1),
            ),
    ;

    /// A whole sample, as JSON.
    fn get_json_sample(&self, entity: &str, index: i32) -> (r: (i32, Option<String>))
        requires
            is_c_text(entity@),
        ensures
            self.answers(NativeCall::GetJsonSample { entity: entity@, index }, NativeReply::CodeText(r.0, r.1)),
    ;

    /// A member of a sample, as JSON.
    fn get_json_member(&self, entity: &str, index: i32, member: &str) -> (r: (i32, Option<String>))
        requires
            is_c_text(entity@),
            is_c_text(member@),
        ensures
            self.answers(
                NativeCall::GetJsonMember { entity: entity@, index, member: member@ },
                NativeReply::CodeText(r.0, r.1),
            ),
    ;

    /// Set a whole output sample from JSON.
    fn set_json_instance(&self, entity: &str, json: &str) -> (r: i32)
        requires
            is_c_text(entity@),
            is_c_text(json@),
        ensures
            self.answers(NativeCall::SetJsonInstance { entity: entity@, json: json@ }, NativeReply::Code(r)),
    ;

    /// An output's sample, as JSON.
    fn get_json_instance(&self, entity: &str) -> (r: Option<String>)
        requires
            is_c_text(entity@),
        ensures
            self.answers(NativeCall::GetJsonInstance { entity: entity@ }, NativeReply::Text(r)),
    ;

    /// The last error message recorded by the native library.
    fn last_error_message() -> (r: Option<String>)
        ensures
            Self::global_answers(NativeCall::LastErrorMessage, NativeReply::Text(r)),
    ;

    /// The build identifiers of RTI Connext and of the native connector.
    fn build_versions() -> (r: (i32, Option<String>, Option<String>))
        ensures
            Self::global_answers(NativeCall::BuildVersions, NativeReply::Versions(r.0, r.1, r.2)),
    ;

    /// Finalize the global state of RTI Connext.
    fn finalize_globals() -> (r: i32)
        ensures
            Self::global_answers(NativeCall::FinalizeGlobals, NativeReply::Code(r)),
    ;
}

} // verus!
