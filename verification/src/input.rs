//! Inputs: reading samples from a DDS topic.
//!
//! [`Input::read`] and [`Input::take`] fill the input's sample cache from its
//! `DataReader`; [`Input::iter`] walks the cache with a [`SampleIterator`],
//! whose [`Sample`]s give access to the fields and to the sample info;
//! [`SampleIterator::valid_only`] skips the samples without valid data.
//! Operations that reach the native library take the [`Connector`] that the
//! input was obtained from.

use vstd::prelude::*;
use vstd::string::StringSliceAdditionalSpecFns;

use crate::connector::{Connector, SelectedValue};
use crate::ffi::{
    carries_library_message, carries_reader_message, bits_answered, bool_answered, count_answered, duration_millis, fails_on_index, fails_on_string,
    index_checked, native_index, native_timeout, reader_int_answered, reader_text_answered,
    reader_unit_answered, saturated_millis, selected_answered, text_answered, unit_answered,
};
use crate::native::{NativeApi, NativeCall, ReturnCode, is_c_text};
use crate::result::{
    ConnectorError, ConnectorFallible, ConnectorResult, ErrorKind, InvalidErrorKind, error_text,
    is_native_code, is_not_found,
};

verus! {

/// `r` is what an input operation on the reader named `name` of the
/// participant `n`, which yields a value, may produce: a string error for a
/// name that the C library cannot take, a not-found error when the
/// participant gives no such reader, and otherwise what comes of the reader
/// answering `call`.
pub open spec fn reader_value<N: NativeApi>(r: ConnectorResult<i32>, n: N, name: Seq<char>, call: NativeCall) -> bool {
    &&& !is_c_text(name) ==> fails_on_string(r)
    &&& is_c_text(name) ==> exists|reply: Option<N::Reader>| #[trigger] n.reader_lookup(NativeCall::GetDataReader { entity: name }, reply) && match reply {
        Some(rd) => reader_int_answered(rd, call, r) && carries_reader_message(rd, r),
        None => r matches Err(e) && is_not_found(e, name),
    }
}

/// `r` is what an input operation on the reader named `name`, which yields
/// no value, may produce.
pub open spec fn reader_unit<N: NativeApi>(r: ConnectorFallible, n: N, name: Seq<char>, call: NativeCall) -> bool {
    &&& !is_c_text(name) ==> fails_on_string(r)
    &&& is_c_text(name) ==> exists|reply: Option<N::Reader>| #[trigger] n.reader_lookup(NativeCall::GetDataReader { entity: name }, reply) && match reply {
        Some(rd) => reader_unit_answered(rd, call, r) && carries_reader_message(rd, r),
        None => r matches Err(e) && is_not_found(e, name),
    }
}

/// `r` is what an input operation on the reader named `name`, which yields a
/// string, may produce.
pub open spec fn reader_string<N: NativeApi>(r: ConnectorResult<String>, n: N, name: Seq<char>, call: NativeCall) -> bool {
    &&& !is_c_text(name) ==> fails_on_string(r)
    &&& is_c_text(name) ==> exists|reply: Option<N::Reader>| #[trigger] n.reader_lookup(NativeCall::GetDataReader { entity: name }, reply) && match reply {
        Some(rd) => reader_text_answered(rd, call, r) && carries_reader_message(rd, r),
        None => r matches Err(e) && is_not_found(e, name),
    }
}

/// `r` is what a read or take of the input named `name` through the
/// participant `n` may produce: a string error for a name that the C library
/// cannot take, and otherwise what comes of the participant answering `call`,
/// with "no data" counting as success.
pub open spec fn cache_fill<N: NativeApi>(r: ConnectorFallible, n: N, name: Seq<char>, call: NativeCall) -> bool {
    &&& !is_c_text(name) ==> fails_on_string(r)
    &&& is_c_text(name) ==> exists|answer: ConnectorFallible| #[trigger] unit_answered(n, call, answer)
        && r == without_no_data(answer)
}

/// `r` is what the query of the validity of sample `index` of the input named
/// `entity` through the participant `n` may produce.
pub open spec fn validity_answered<N: NativeApi>(n: N, entity: Seq<char>, index: usize, r: ConnectorResult<bool>) -> bool {
    &&& !is_c_text(entity) ==> fails_on_string(r)
    &&& is_c_text(entity) ==> index_checked(
        r,
        index,
        bool_answered(
            n,
            NativeCall::GetBooleanFromInfos { entity, index: native_index(index), field: "valid_data"@ },
            r,
        ),
    )
}

/// The query of the validity of sample `index` may answer something else than
/// "valid": an error, or "not valid".
pub open spec fn reported_not_valid<N: NativeApi>(n: N, entity: Seq<char>, index: usize) -> bool {
    exists|r: ConnectorResult<bool>| #[trigger] validity_answered(n, entity, index, r) && r != Ok::<bool, ConnectorError>(true)
}

/// `r` is what the query of the JSON of sample `index` of the input named
/// `entity` through the participant `n` may produce.
pub open spec fn sample_json<N: NativeApi>(n: N, entity: Seq<char>, index: usize, r: ConnectorResult<String>) -> bool {
    &&& !is_c_text(entity) ==> fails_on_string(r)
    &&& is_c_text(entity) ==> index_checked(
        r,
        index,
        text_answered(n, NativeCall::GetJsonSample { entity, index: native_index(index) }, r),
    )
}

/// The result of a read or take: a native "no data" answer is a success.
pub open spec fn without_no_data(r: ConnectorFallible) -> ConnectorFallible {
    match r {
        Err(e) => if is_native_code(e, ReturnCode::NoData) {
            Ok(())
        } else {
            Err(e)
        },
        Ok(()) => Ok(()),
    }
}

/// `r` is what a field access of the sample at `index` may produce, with
/// `native` describing the native answers.
pub open spec fn sample_access<T>(
    r: ConnectorResult<T>,
    name: Seq<char>,
    field: Seq<char>,
    index: usize,
    native: bool,
) -> bool {
    &&& !is_c_text(name) || !is_c_text(field) ==> fails_on_string(r)
    &&& is_c_text(name) && is_c_text(field) ==> index_checked(r, index, native)
}

/// `r` is what a field access of the sample at `index` may produce when the
/// index is checked before the field name, with `native` describing the
/// native answers.
pub open spec fn sample_access_by_index<T>(
    r: ConnectorResult<T>,
    name: Seq<char>,
    field: Seq<char>,
    index: usize,
    native: bool,
) -> bool {
    &&& !is_c_text(name) ==> fails_on_string(r)
    &&& is_c_text(name) ==> index_checked(
        r,
        index,
        (!is_c_text(field) ==> fails_on_string(r)) && (is_c_text(field) ==> native),
    )
}

/// A read or take: the native "no data" answer is no failure.
pub fn ignore_no_data(result: ConnectorFallible) -> (r: ConnectorFallible)
    ensures
        r == without_no_data(result),
{
    match result {
        Err(e) => if e.is_native_error_code(ReturnCode::NoData) {
            Ok(())
        } else {
            Err(e)
        },
        Ok(()) => Ok(()),
    }
}

/// Kinds of data acquisition for an [`Input`].
#[derive(Debug, Clone, Copy, PartialEq, Eq, Structural)]
pub enum ReadOrTake {
    /// Read samples without removing them from the `DataReader`.
    Read,
    /// Take samples, removing them from the `DataReader`.
    Take,
}

/// An interface to read data from a DDS `Topic`, owned by its holder.
///
/// Obtained from [`Connector::get_input`] and given back with
/// [`Connector::release_input`].
#[derive(Debug)]
pub struct Input {
    name: String,
}

impl Input {
    /// The name of this input, as the connector knows it.
    pub closed spec fn entity_name(&self) -> Seq<char> {
        self.name@
    }

    /// The input named `name`.
    pub(crate) fn new(name: &str) -> (i: Input)
        ensures
            i.entity_name() == name@,
    {
        Input { name: String::from_str(name) }
    }

    /// The name of this input.
    pub fn name(&self) -> (n: &str)
        ensures
            n@ == self.entity_name(),
    {
        self.name.as_str()
    }

    /// Fill the sample cache, leaving the samples in the `DataReader`. An
    /// empty reader is no failure.
    pub fn read<N: NativeApi>(&mut self, connector: &Connector<N>) -> (r: ConnectorFallible)
        ensures
            carries_library_message(connector.native_api(), r),
            final(self).entity_name() == old(self).entity_name(),
            cache_fill(r, connector.native_api(), old(self).entity_name(), NativeCall::Read { entity: old(self).entity_name() }),
            !(r matches Err(e) && is_native_code(e, ReturnCode::NoData)),
    {
        self.impl_read_or_take(connector, ReadOrTake::Read)
    }

    /// Fill the sample cache, removing the samples from the `DataReader`. An
    /// empty reader is no failure.
    pub fn take<N: NativeApi>(&mut self, connector: &Connector<N>) -> (r: ConnectorFallible)
        ensures
            carries_library_message(connector.native_api(), r),
            final(self).entity_name() == old(self).entity_name(),
            cache_fill(r, connector.native_api(), old(self).entity_name(), NativeCall::Take { entity: old(self).entity_name() }),
            !(r matches Err(e) && is_native_code(e, ReturnCode::NoData)),
    {
        self.impl_read_or_take(connector, ReadOrTake::Take)
    }

    fn impl_read_or_take<N: NativeApi>(&mut self, connector: &Connector<N>, operation: ReadOrTake) -> (r:
        ConnectorFallible)
        ensures
            carries_library_message(connector.native_api(), r),
            final(self).entity_name() == old(self).entity_name(),
            cache_fill(
                r,
                connector.native_api(),
                old(self).entity_name(),
                match operation {
                    ReadOrTake::Read => NativeCall::Read { entity: old(self).entity_name() },
                    ReadOrTake::Take => NativeCall::Take { entity: old(self).entity_name() },
                },
            ),
            !(r matches Err(e) && is_native_code(e, ReturnCode::NoData)),
    {
        let result = match operation {
            ReadOrTake::Read => connector.native_ref().read(self.name.as_str()),
            ReadOrTake::Take => connector.native_ref().take(self.name.as_str()),
        };
        ignore_no_data(result)
    }

    /// Return the loan on the samples taken from the `DataReader`.
    pub fn return_loan<N: NativeApi>(&mut self, connector: &Connector<N>) -> (r: ConnectorFallible)
        ensures
            carries_library_message(connector.native_api(), r),
            final(self).entity_name() == old(self).entity_name(),
            !is_c_text(old(self).entity_name()) ==> fails_on_string(r),
            is_c_text(old(self).entity_name()) ==> unit_answered(
                connector.native_api(),
                NativeCall::ReturnLoan { entity: old(self).entity_name() },
                r,
            ),
    {
        connector.native_ref().return_loan(self.name.as_str())
    }

    /// Wait indefinitely for data on this input.
    pub fn wait<N: NativeApi>(&self, connector: &Connector<N>) -> (r: ConnectorFallible)
        ensures
            reader_unit(
                r,
                connector.native_api(),
                self.entity_name(),
                NativeCall::WaitForDataOnReader { timeout_ms: native_timeout(None) },
            ),
    {
        self.impl_wait_for_data(connector, None)
    }

    /// Wait for data on this input, or until `timeout` expires.
    pub fn wait_with_timeout<N: NativeApi>(
        &self,
        connector: &Connector<N>,
        timeout: std::time::Duration,
    ) -> (r: ConnectorFallible)
        ensures
            reader_unit(
                r,
                connector.native_api(),
                self.entity_name(),
                NativeCall::WaitForDataOnReader { timeout_ms: saturated_millis(duration_millis(timeout)) },
            ),
    {
        self.impl_wait_for_data(connector, Some(crate::ffi::timeout_from_duration(timeout)))
    }

    fn impl_wait_for_data<N: NativeApi>(&self, connector: &Connector<N>, timeout_ms: Option<i32>) -> (r:
        ConnectorFallible)
        ensures
            reader_unit(
                r,
                connector.native_api(),
                self.entity_name(),
                NativeCall::WaitForDataOnReader { timeout_ms: native_timeout(timeout_ms) },
            ),
    {
        match connector.native_ref().get_input(self.name.as_str()) {
            Ok(reader) => reader.wait_for_data(timeout_ms),
            Err(e) => Err(e),
        }
    }

    /// Wait indefinitely for a publication to be matched or unmatched; the
    /// change in the number of matched publications.
    pub fn wait_for_publications<N: NativeApi>(&self, connector: &Connector<N>) -> (r: ConnectorResult<
        i32,
    >)
        ensures
            reader_value(
                r,
                connector.native_api(),
                self.entity_name(),
                NativeCall::WaitForMatchedPublication { timeout_ms: native_timeout(None) },
            ),
    {
        self.impl_wait_for_publications(connector, None)
    }

    /// Wait for a publication to be matched or unmatched, or until `timeout`
    /// expires; the change in the number of matched publications.
    pub fn wait_for_publications_with_timeout<N: NativeApi>(
        &self,
        connector: &Connector<N>,
        timeout: std::time::Duration,
    ) -> (r: ConnectorResult<i32>)
        ensures
            reader_value(
                r,
                connector.native_api(),
                self.entity_name(),
                NativeCall::WaitForMatchedPublication { timeout_ms: saturated_millis(duration_millis(timeout)) },
            ),
    {
        self.impl_wait_for_publications(
            connector,
            Some(crate::ffi::timeout_from_duration(timeout)),
        )
    }

    fn impl_wait_for_publications<N: NativeApi>(
        &self,
        connector: &Connector<N>,
        timeout_ms: Option<i32>,
    ) -> (r: ConnectorResult<i32>)
        ensures
            reader_value(
                r,
                connector.native_api(),
                self.entity_name(),
                NativeCall::WaitForMatchedPublication { timeout_ms: native_timeout(timeout_ms) },
            ),
    {
        match connector.native_ref().get_input(self.name.as_str()) {
            Ok(reader) => reader.wait_for_matched_publication(timeout_ms),
            Err(e) => Err(e),
        }
    }

    /// The publications currently matched, as JSON.
    pub fn display_matched_publications<N: NativeApi>(&self, connector: &Connector<N>) -> (r:
        ConnectorResult<String>)
        ensures
            reader_string(r, connector.native_api(), self.entity_name(), NativeCall::GetMatchedPublications),
    {
        match connector.native_ref().get_input(self.name.as_str()) {
            Ok(reader) => reader.get_matched_publications(),
            Err(e) => Err(e),
        }
    }

    /// The number of samples in the cache.
    pub fn get_count<N: NativeApi>(&self, connector: &Connector<N>) -> (r: ConnectorResult<usize>)
        ensures
            carries_library_message(connector.native_api(), r),
            !is_c_text(self.entity_name()) ==> fails_on_string(r),
            is_c_text(self.entity_name()) ==> count_answered(
                connector.native_api(),
                NativeCall::GetSampleCount { entity: self.entity_name() },
                r,
            ),
    {
        connector.native_ref().get_sample_count(self.name.as_str())
    }

    /// An iterator over the samples of the cache; an unreadable cache counts
    /// as empty.
    pub fn iter<'a, N: NativeApi>(&'a self, connector: &Connector<N>) -> (it: SampleIterator<'a>)
        ensures
            it.position() == 0,
            it.source() == *self,
            !is_c_text(self.entity_name()) ==> it.count() == 0,
            is_c_text(self.entity_name()) ==> exists|count: ConnectorResult<usize>| #[trigger] count_answered(
                connector.native_api(),
                NativeCall::GetSampleCount { entity: self.entity_name() },
                count,
            ) && it.count() == match count {
                Ok(n) => n,
                Err(_) => 0usize,
            },
    {
        let samples_len = match self.get_count(connector) {
            Ok(n) => n,
            Err(_) => 0,
        };
        SampleIterator { index: 0, samples_len, input: self }
    }

    /// A numeric field (as IEEE-754 bits) of sample `index`.
    pub fn get_number<N: NativeApi>(&self, connector: &Connector<N>, index: usize, field_name: &str) -> (r:
        ConnectorResult<u64>)
        requires
            index != i32::MAX as usize,
        ensures
            carries_library_message(connector.native_api(), r),
            sample_access(
                r,
                self.entity_name(),
                field_name@,
                index,
                bits_answered(
                    connector.native_api(),
                    NativeCall::GetNumberFromSample { entity: self.entity_name(), index: native_index(index), field: field_name@ },
                    r,
                ),
            ),
    {
        connector.native_ref().get_number_from_sample(self.name.as_str(), index, field_name)
    }

    /// A boolean field of sample `index`.
    pub fn get_boolean<N: NativeApi>(&self, connector: &Connector<N>, index: usize, field_name: &str) -> (r:
        ConnectorResult<bool>)
        requires
            index != i32::MAX as usize,
        ensures
            carries_library_message(connector.native_api(), r),
            sample_access(
                r,
                self.entity_name(),
                field_name@,
                index,
                bool_answered(
                    connector.native_api(),
                    NativeCall::GetBooleanFromSample { entity: self.entity_name(), index: native_index(index), field: field_name@ },
                    r,
                ),
            ),
    {
        connector.native_ref().get_boolean_from_sample(self.name.as_str(), index, field_name)
    }

    /// A string field of sample `index`.
    pub fn get_string<N: NativeApi>(&self, connector: &Connector<N>, index: usize, field_name: &str) -> (r:
        ConnectorResult<String>)
        requires
            index != i32::MAX as usize,
        ensures
            carries_library_message(connector.native_api(), r),
            sample_access_by_index(
                r,
                self.entity_name(),
                field_name@,
                index,
                text_answered(
                    connector.native_api(),
                    NativeCall::GetStringFromSample { entity: self.entity_name(), index: native_index(index), field: field_name@ },
                    r,
                ),
            ),
    {
        connector.native_ref().get_string_from_sample(self.name.as_str(), index, field_name)
    }

    /// A field of sample `index`, of whatever kind it has.
    pub fn get_field<N: NativeApi>(&self, connector: &Connector<N>, index: usize, field_name: &str) -> (r:
        ConnectorResult<SelectedValue>)
        requires
            index != i32::MAX as usize,
        ensures
            carries_library_message(connector.native_api(), r),
            sample_access_by_index(
                r,
                self.entity_name(),
                field_name@,
                index,
                selected_answered(
                    connector.native_api(),
                    NativeCall::GetAnyFromSample { entity: self.entity_name(), index: native_index(index), field: field_name@ },
                    r,
                ),
            ),
    {
        connector.native_ref().get_from_sample(self.name.as_str(), index, field_name)
    }

    /// A field of sample `index`, as JSON.
    pub fn get_field_json<N: NativeApi>(&self, connector: &Connector<N>, index: usize, field_name: &str) -> (r:
        ConnectorResult<String>)
        requires
            index != i32::MAX as usize,
        ensures
            carries_library_message(connector.native_api(), r),
            sample_access_by_index(
                r,
                self.entity_name(),
                field_name@,
                index,
                text_answered(
                    connector.native_api(),
                    NativeCall::GetJsonMember { entity: self.entity_name(), index: native_index(index), member: field_name@ },
                    r,
                ),
            ),
    {
        connector.native_ref().get_json_member(self.name.as_str(), index, field_name)
    }

    /// A field of the info of sample `index`, of whatever kind it has.
    pub fn get_info<N: NativeApi>(&self, connector: &Connector<N>, index: usize, field_name: &str) -> (r:
        ConnectorResult<SelectedValue>)
        requires
            index != i32::MAX as usize,
        ensures
            carries_library_message(connector.native_api(), r),
            sample_access_by_index(
                r,
                self.entity_name(),
                field_name@,
                index,
                selected_answered(
                    connector.native_api(),
                    NativeCall::GetAnyFromInfo { entity: self.entity_name(), index: native_index(index), field: field_name@ },
                    r,
                ),
            ),
    {
        connector.native_ref().get_from_info(self.name.as_str(), index, field_name)
    }

    /// A field of the info of sample `index`, as JSON.
    pub fn get_info_json<N: NativeApi>(&self, connector: &Connector<N>, index: usize, field_name: &str) -> (r:
        ConnectorResult<String>)
        requires
            index != i32::MAX as usize,
        ensures
            carries_library_message(connector.native_api(), r),
            sample_access_by_index(
                r,
                self.entity_name(),
                field_name@,
                index,
                text_answered(
                    connector.native_api(),
                    NativeCall::GetJsonFromInfos { entity: self.entity_name(), index: native_index(index), field: field_name@ },
                    r,
                ),
            ),
    {
        connector.native_ref().get_json_from_infos(self.name.as_str(), index, field_name)
    }

    /// Sample `index`, as JSON.
    pub fn get_json<N: NativeApi>(&self, connector: &Connector<N>, index: usize) -> (r: ConnectorResult<
        String,
    >)
        requires
            index != i32::MAX as usize,
        ensures
            carries_library_message(connector.native_api(), r),
            sample_json(connector.native_api(), self.entity_name(), index, r),
    {
        connector.native_ref().get_json_sample(self.name.as_str(), index)
    }

    /// Whether sample `index` holds valid data (its `valid_data` info field).
    pub fn is_valid<N: NativeApi>(&self, connector: &Connector<N>, index: usize) -> (r: ConnectorResult<
        bool,
    >)
        requires
            index != i32::MAX as usize,
        ensures
            carries_library_message(connector.native_api(), r),
            validity_answered(connector.native_api(), self.entity_name(), index, r),
    {
        proof {
            lemma_valid_data_is_c_text();
        }
        connector.native_ref().get_boolean_from_infos(self.name.as_str(), index, "valid_data")
    }
}

/// The name of the info field that tells whether a sample holds valid data
/// can be handed to the C library.
proof fn lemma_valid_data_is_c_text()
    ensures
        is_c_text("valid_data"@),
{
    broadcast use vstd::string::is_ascii_spec_bytes;

    reveal_strlit("valid_data");
    let s: &str = "valid_data";
    assert(vstd::string::is_ascii(s));
    let bytes = s.spec_bytes();
    assert(bytes =~= Seq::new(s@.len(), |i| s@.index(i) as u8));
    assert forall|i: int| 0 <= i < bytes.len() implies bytes[i] != 0u8 by {
        assert(s@[i] != '\0');
    }
}

/// One sample of the cache of an [`Input`].
#[derive(Debug)]
pub struct Sample<'a> {
    index: usize,
    input: &'a Input,
}

impl<'a> Sample<'a> {
    /// The position of this sample in the cache.
    pub closed spec fn sample_index(&self) -> usize {
        self.index
    }

    /// The input that holds this sample.
    pub closed spec fn sample_input(&self) -> Input {
        *self.input
    }

    /// The position of this sample in the cache.
    pub fn index(&self) -> (i: usize)
        ensures
            i == self.sample_index(),
    {
        self.index
    }

    /// Whether the sample holds valid data.
    pub fn is_valid<N: NativeApi>(&self, connector: &Connector<N>) -> (r: ConnectorResult<bool>)
        requires
            self.sample_index() != i32::MAX as usize,
        ensures
            carries_library_message(connector.native_api(), r),
            validity_answered(connector.native_api(), self.sample_input().entity_name(), self.sample_index(), r),
    {
        self.input.is_valid(connector, self.index)
    }

    /// A field of the sample's info, of whatever kind it has.
    pub fn get_info<N: NativeApi>(&self, connector: &Connector<N>, field_name: &str) -> (r:
        ConnectorResult<SelectedValue>)
        requires
            self.sample_index() != i32::MAX as usize,
        ensures
            carries_library_message(connector.native_api(), r),
            sample_access_by_index(
                r,
                self.sample_input().entity_name(),
                field_name@,
                self.sample_index(),
                selected_answered(
                    connector.native_api(),
                    NativeCall::GetAnyFromInfo {
                        entity: self.sample_input().entity_name(),
                        index: native_index(self.sample_index()),
                        field: field_name@,
                    },
                    r,
                ),
            ),
    {
        self.input.get_info(connector, self.index, field_name)
    }

    /// A field of the sample's info, as JSON.
    pub fn get_info_json<N: NativeApi>(&self, connector: &Connector<N>, field_name: &str) -> (r:
        ConnectorResult<String>)
        requires
            self.sample_index() != i32::MAX as usize,
        ensures
            carries_library_message(connector.native_api(), r),
            sample_access_by_index(
                r,
                self.sample_input().entity_name(),
                field_name@,
                self.sample_index(),
                text_answered(
                    connector.native_api(),
                    NativeCall::GetJsonFromInfos {
                        entity: self.sample_input().entity_name(),
                        index: native_index(self.sample_index()),
                        field: field_name@,
                    },
                    r,
                ),
            ),
    {
        self.input.get_info_json(connector, self.index, field_name)
    }

    /// A boolean field of the sample.
    pub fn get_boolean<N: NativeApi>(&self, connector: &Connector<N>, field_name: &str) -> (r:
        ConnectorResult<bool>)
        requires
            self.sample_index() != i32::MAX as usize,
        ensures
            carries_library_message(connector.native_api(), r),
            sample_access(
                r,
                self.sample_input().entity_name(),
                field_name@,
                self.sample_index(),
                bool_answered(
                    connector.native_api(),
                    NativeCall::GetBooleanFromSample {
                        entity: self.sample_input().entity_name(),
                        index: native_index(self.sample_index()),
                        field: field_name@,
                    },
                    r,
                ),
            ),
    {
        self.input.get_boolean(connector, self.index, field_name)
    }

    /// A string field of the sample.
    pub fn get_string<N: NativeApi>(&self, connector: &Connector<N>, field_name: &str) -> (r:
        ConnectorResult<String>)
        requires
            self.sample_index() != i32::MAX as usize,
        ensures
            carries_library_message(connector.native_api(), r),
            sample_access_by_index(
                r,
                self.sample_input().entity_name(),
                field_name@,
                self.sample_index(),
                text_answered(
                    connector.native_api(),
                    NativeCall::GetStringFromSample {
                        entity: self.sample_input().entity_name(),
                        index: native_index(self.sample_index()),
                        field: field_name@,
                    },
                    r,
                ),
            ),
    {
        self.input.get_string(connector, self.index, field_name)
    }

    /// A numeric field of the sample, as the bits of an `f64`.
    pub fn get_number<N: NativeApi>(&self, connector: &Connector<N>, field_name: &str) -> (r:
        ConnectorResult<u64>)
        requires
            self.sample_index() != i32::MAX as usize,
        ensures
            carries_library_message(connector.native_api(), r),
            sample_access(
                r,
                self.sample_input().entity_name(),
                field_name@,
                self.sample_index(),
                bits_answered(
                    connector.native_api(),
                    NativeCall::GetNumberFromSample {
                        entity: self.sample_input().entity_name(),
                        index: native_index(self.sample_index()),
                        field: field_name@,
                    },
                    r,
                ),
            ),
    {
        self.input.get_number(connector, self.index, field_name)
    }

    /// A field of the sample, of whatever kind it has.
    pub fn get_value<N: NativeApi>(&self, connector: &Connector<N>, field_name: &str) -> (r:
        ConnectorResult<SelectedValue>)
        requires
            self.sample_index() != i32::MAX as usize,
        ensures
            carries_library_message(connector.native_api(), r),
            sample_access_by_index(
                r,
                self.sample_input().entity_name(),
                field_name@,
                self.sample_index(),
                selected_answered(
                    connector.native_api(),
                    NativeCall::GetAnyFromSample {
                        entity: self.sample_input().entity_name(),
                        index: native_index(self.sample_index()),
                        field: field_name@,
                    },
                    r,
                ),
            ),
    {
        self.input.get_field(connector, self.index, field_name)
    }

    /// A field of the sample, as JSON.
    pub fn get_value_json<N: NativeApi>(&self, connector: &Connector<N>, field_name: &str) -> (r:
        ConnectorResult<String>)
        requires
            self.sample_index() != i32::MAX as usize,
        ensures
            carries_library_message(connector.native_api(), r),
            sample_access_by_index(
                r,
                self.sample_input().entity_name(),
                field_name@,
                self.sample_index(),
                text_answered(
                    connector.native_api(),
                    NativeCall::GetJsonMember {
                        entity: self.sample_input().entity_name(),
                        index: native_index(self.sample_index()),
                        member: field_name@,
                    },
                    r,
                ),
            ),
    {
        self.input.get_field_json(connector, self.index, field_name)
    }

    /// The whole sample, as JSON.
    pub fn get_as_json<N: NativeApi>(&self, connector: &Connector<N>) -> (r: ConnectorResult<String>)
        requires
            self.sample_index() != i32::MAX as usize,
        ensures
            carries_library_message(connector.native_api(), r),
            sample_json(connector.native_api(), self.sample_input().entity_name(), self.sample_index(), r),
    {
        self.input.get_json(connector, self.index)
    }

    /// The text that displays the sample: its JSON, or a placeholder when the
    /// JSON cannot be obtained.
    pub fn to_display_string<N: NativeApi>(&self, connector: &Connector<N>) -> (s: String)
        requires
            self.sample_index() != i32::MAX as usize,
        ensures
            exists|fetched: ConnectorResult<String>| #[trigger] sample_json(
                connector.native_api(),
                self.sample_input().entity_name(),
                self.sample_index(),
                fetched,
            ) && s@ == match fetched {
                Ok(json) => json@,
                Err(_) => "<error retrieving sample as JSON>"@,
            },
    {
        match self.get_as_json(connector) {
            Ok(json) => json,
            Err(_) => String::from_str("<error retrieving sample as JSON>"),
        }
    }

    /// The JSON of the sample, to be deserialized into the type named
    /// `target_type`; a failure to obtain it is a deserialization error.
    pub fn json_for_deserialization<N: NativeApi>(&self, connector: &Connector<N>, target_type: &str) -> (r:
        ConnectorResult<String>)
        requires
            self.sample_index() != i32::MAX as usize,
        ensures
            carries_library_message(connector.native_api(), r),
            exists|fetched: ConnectorResult<String>| #[trigger] sample_json(
                connector.native_api(),
                self.sample_input().entity_name(),
                self.sample_index(),
                fetched,
            ) && match fetched {
                Ok(json) => r == Ok::<String, ConnectorError>(json),
                Err(cause) => r matches Err(e) && is_json_retrieval_failure(e, target_type@, cause),
            },
    {
        match self.get_as_json(connector) {
            Ok(json) => Ok(json),
            Err(e) => Err(json_retrieval_failure(target_type, &e)),
        }
    }
}

/// `e` is the deserialization error for a sample of type `target_type` whose
/// JSON could not be obtained because of `cause`.
pub open spec fn is_json_retrieval_failure(e: ConnectorError, target_type: Seq<char>, cause: ConnectorError) -> bool {
    e.kind matches ErrorKind::Invalid { what, context } && what == InvalidErrorKind::Deserialization
        && context@ == "Failed getting JSON for deserialization of type '"@ + target_type + "': "@
        + error_text(cause) && e.native_message is None
}

/// `e` is the deserialization error for the JSON `json` that could not be
/// deserialized into the type `target_type` because of `reason`.
pub open spec fn is_deserialization_failure(
    e: ConnectorError,
    json: Seq<char>,
    target_type: Seq<char>,
    reason: Seq<char>,
) -> bool {
    e.kind matches ErrorKind::Invalid { what, context } && what == InvalidErrorKind::Deserialization
        && context@ == "Failed deserializing JSON ("@ + json + ") into type '"@ + target_type + "': "@
        + reason && e.native_message is None
}

/// The error for a sample of type `target_type` whose JSON could not be obtained.
pub fn json_retrieval_failure(target_type: &str, cause: &ConnectorError) -> (e: ConnectorError)
    ensures
        is_json_retrieval_failure(e, target_type@, *cause),
{
    let mut context = String::from_str("Failed getting JSON for deserialization of type '");
    context.append(target_type);
    context.append("': ");
    let cause_text = cause.to_text();
    context.append(cause_text.as_str());
    ConnectorError::new(ErrorKind::Invalid { what: InvalidErrorKind::Deserialization, context })
}

/// The error for the JSON `json` that could not be deserialized into the type
/// `target_type` because of `reason`.
pub fn deserialization_failure(json: &str, target_type: &str, reason: &str) -> (e: ConnectorError)
    ensures
        is_deserialization_failure(e, json@, target_type@, reason@),
{
    let mut context = String::from_str("Failed deserializing JSON (");
    context.append(json);
    context.append(") into type '");
    context.append(target_type);
    context.append("': ");
    context.append(reason);
    ConnectorError::new(ErrorKind::Invalid { what: InvalidErrorKind::Deserialization, context })
}

/// An iterator over the samples of the cache of an [`Input`], in order.
pub struct SampleIterator<'a> {
    index: usize,
    samples_len: usize,
    input: &'a Input,
}

impl<'a> SampleIterator<'a> {
    /// The position of the next sample.
    pub closed spec fn position(&self) -> usize {
        self.index
    }

    /// The number of samples in the cache.
    pub closed spec fn count(&self) -> usize {
        self.samples_len
    }

    /// The input whose samples are walked.
    pub closed spec fn source(&self) -> Input {
        *self.input
    }

    /// The position never passes the number of samples.
    #[verifier::type_invariant]
    closed spec fn position_in_range(&self) -> bool {
        self.index <= self.samples_len
    }

    /// The next sample, if any remains.
    pub fn next(&mut self) -> (s: Option<Sample<'a>>)
        ensures
            final(self).count() == old(self).count(),
            final(self).source() == old(self).source(),
            old(self).position() < old(self).count() ==> final(self).position() == old(self).position() + 1
                && (s matches Some(smp) && smp.sample_index() == old(self).position()
                && smp.sample_input() == old(self).source()),
            old(self).position() >= old(self).count() ==> final(self).position() == old(self).position()
                && s is None,
    {
        proof {
            use_type_invariant(&*self);
        }
        if self.index < self.samples_len {
            let result = Sample { index: self.index, input: self.input };
            self.index = self.index + 1;
            Some(result)
        } else {
            None
        }
    }

    /// The number of samples that remain.
    pub fn len(&self) -> (n: usize)
        ensures
            n == self.count() - self.position(),
    {
        proof {
            use_type_invariant(self);
        }
        self.samples_len - self.index
    }

    /// The bounds on the number of samples that remain: exactly [`len`](Self::len).
    pub fn size_hint(&self) -> (h: (usize, Option<usize>))
        ensures
            h.0 == self.count() - self.position(),
            h.1 == Some((self.count() - self.position()) as usize),
    {
        let remaining = self.len();
        (remaining, Some(remaining))
    }

    /// An iterator over the remaining samples that hold valid data.
    pub fn valid_only(self) -> (v: ValidSampleIterator<'a>)
        ensures
            v.inner() == self,
    {
        ValidSampleIterator(self)
    }
}

/// An iterator over the samples of an [`Input`] that hold valid data.
pub struct ValidSampleIterator<'a>(SampleIterator<'a>);

impl<'a> ValidSampleIterator<'a> {
    /// The iterator over all samples that this iterator filters.
    pub closed spec fn inner(&self) -> SampleIterator<'a> {
        self.0
    }

    /// The next sample that the native library reports as holding valid data;
    /// the samples before it, whose validity is reported otherwise or cannot
    /// be read, are skipped.
    pub fn next<N: NativeApi>(&mut self, connector: &Connector<N>) -> (s: Option<Sample<'a>>)
        requires
            old(self).inner().count() <= i32::MAX as usize,
        ensures
            final(self).inner().count() == old(self).inner().count(),
            final(self).inner().source() == old(self).inner().source(),
            final(self).inner().position() >= old(self).inner().position(),
            s matches Some(smp) ==> old(self).inner().position() <= smp.sample_index()
                && smp.sample_index() < old(self).inner().count()
                && smp.sample_index() + 1 == final(self).inner().position()
                && smp.sample_input() == old(self).inner().source() && validity_answered(
                connector.native_api(),
                old(self).inner().source().entity_name(),
                smp.sample_index(),
                Ok(true),
            ),
            s is None ==> final(self).inner().position() == old(self).inner().count()
                || old(self).inner().position() > old(self).inner().count(),
            forall|j: usize|
                old(self).inner().position() <= j < (if s is Some {
                    (final(self).inner().position() - 1) as usize
                } else {
                    final(self).inner().position()
                }) ==> #[trigger] reported_not_valid(
                    connector.native_api(),
                    old(self).inner().source().entity_name(),
                    j,
                ),
    {
        loop
            invariant
                self.0.count() == old(self).inner().count(),
                self.0.source() == old(self).inner().source(),
                self.0.position() >= old(self).inner().position(),
                self.0.count() <= i32::MAX as usize,
                old(self).inner().position() <= old(self).inner().count() ==> self.0.position() <= self.0.count(),
                old(self).inner().position() > old(self).inner().count() ==> self.0.position() == old(self).inner().position(),
                forall|j: usize|
                    old(self).inner().position() <= j < self.0.position() ==> #[trigger] reported_not_valid(
                        connector.native_api(),
                        old(self).inner().source().entity_name(),
                        j,
                    ),
            ensures
                self.0.count() == old(self).inner().count(),
                self.0.source() == old(self).inner().source(),
                self.0.position() >= old(self).inner().position(),
            decreases self.0.count() - self.0.position(),
        {
            proof {
                use_type_invariant(&self.0);
            }
            match self.0.next() {
                Some(sample) => {
                    let valid = sample.is_valid(connector);
                    if let Ok(true) = valid {
                        return Some(sample);
                    }
                    proof {
                        assert(validity_answered(
                            connector.native_api(),
                            old(self).inner().source().entity_name(),
                            sample.sample_index(),
                            valid,
                        ));
                        assert forall|j: usize|
                            old(self).inner().position() <= j < self.0.position() implies #[trigger] reported_not_valid(
                                connector.native_api(),
                                old(self).inner().source().entity_name(),
                                j,
                            ) by {
                            if j == sample.sample_index() {
                                assert(validity_answered(
                                    connector.native_api(),
                                    old(self).inner().source().entity_name(),
                                    j,
                                    valid,
                                ));
                            }
                        }
                    }
                },
                None => {
                    return None;
                },
            }
        }
    }

    /// The bounds on the number of valid samples that remain: from none to
    /// all the remaining samples.
    pub fn size_hint(&self) -> (h: (usize, Option<usize>))
        ensures
            h.0 == 0,
            h.1 == Some((self.inner().count() - self.inner().position()) as usize),
    {
        (0, Some(self.0.len()))
    }
}

} // verus!
