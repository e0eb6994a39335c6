//! Outputs: writing samples to a DDS topic.
//!
//! An [`Output`] holds one sample, the [`Instance`], whose fields are set
//! one by one or from JSON and then published with [`Output::write`] or
//! [`Output::write_with_params`]. [`WriteParams`] describe the parameters of
//! a write: an action (write, dispose, unregister), a source timestamp, and
//! sample identities. Operations that reach the native sample take the
//! [`Connector`] that the output was obtained from.

use vstd::prelude::*;

use crate::connector::{Connector, SelectedValue};
use crate::ffi::{
    carries_library_message, carries_writer_message, FfiOutput, duration_millis, fails_on_string, is_failure_of, native_timeout, reports,
    saturated_millis, set_value_answered, string_reports, unit_answered, writer_int_answered,
    writer_text_answered, writer_unit_answered,
};
use crate::native::{NativeApi, NativeCall, NativeReply, NativeWriter, ReturnCode, is_c_text, return_code_of};
use crate::result::{
    ConnectorError, ConnectorFallible, ConnectorResult, ErrorKind, InvalidErrorKind, error_text,
};

verus! {

/// `r` is what an operation on the sample of an output named `name` that
/// hands the native library the strings `args` may produce: a string error
/// when one of them cannot be handed to it, and otherwise what comes of the
/// participant `n` answering `call`.
pub open spec fn sample_update<N: NativeApi>(
    r: ConnectorFallible,
    n: N,
    name: Seq<char>,
    args: Seq<Seq<char>>,
    call: NativeCall,
) -> bool {
    &&& !is_c_text(name) || (exists|i: int| 0 <= i < args.len() && !is_c_text(#[trigger] args[i]))
        ==> fails_on_string(r)
    &&& is_c_text(name) && (forall|i: int| 0 <= i < args.len() ==> is_c_text(#[trigger] args[i]))
        ==> unit_answered(n, call, r)
}

/// An interface to write data to a DDS `Topic`, owned by its holder.
///
/// Obtained from [`Connector::get_output`] and given back with
/// [`Connector::release_output`].
#[derive(Debug)]
pub struct Output<W> {
    name: String,
    native: FfiOutput<W>,
}

impl<W: NativeWriter> Output<W> {
    /// The name of this output, as the connector knows it.
    pub closed spec fn entity_name(&self) -> Seq<char> {
        self.name@
    }

    /// The native writer that this output writes through.
    pub closed spec fn writer(&self) -> W {
        self.native.inner()
    }

    /// The output named `name`, writing through `native`.
    pub(crate) fn new(name: &str, native: FfiOutput<W>) -> (o: Output<W>)
        ensures
            o.entity_name() == name@,
            o.writer() == native.inner(),
    {
        Output { name: String::from_str(name), native }
    }

    /// The name of this output.
    pub fn name(&self) -> (n: &str)
        ensures
            n@ == self.entity_name(),
    {
        self.name.as_str()
    }

    /// The sample that this output writes.
    pub fn instance(&self) -> (i: Instance<'_, W>)
        ensures
            i.output() == *self,
    {
        Instance(self)
    }

    /// Reset all fields of the sample.
    pub fn clear_members<N: NativeApi>(&mut self, connector: &Connector<N>) -> (r: ConnectorFallible)
        ensures
            carries_library_message(connector.native_api(), r),
            *final(self) == *old(self),
            sample_update(
                r,
                connector.native_api(),
                old(self).entity_name(),
                seq![],
                NativeCall::Clear { entity: old(self).entity_name() },
            ),
    {
        connector.native_ref().clear(self.name.as_str())
    }

    /// Publish the sample.
    pub fn write<N: NativeApi>(&mut self, connector: &Connector<N>) -> (r: ConnectorFallible)
        ensures
            carries_library_message(connector.native_api(), r),
            *final(self) == *old(self),
            sample_update(
                r,
                connector.native_api(),
                old(self).entity_name(),
                seq![],
                NativeCall::Write { entity: old(self).entity_name(), params_json: None },
            ),
    {
        connector.native_ref().write(self.name.as_str())
    }

    /// Publish the sample with the write parameters `params_json`, the JSON
    /// form of a [`WriteParams`].
    pub fn write_with_params<N: NativeApi>(&mut self, connector: &Connector<N>, params_json: &str) -> (r:
        ConnectorFallible)
        ensures
            carries_library_message(connector.native_api(), r),
            *final(self) == *old(self),
            sample_update(
                r,
                connector.native_api(),
                old(self).entity_name(),
                seq![params_json@],
                NativeCall::Write { entity: old(self).entity_name(), params_json: Some(params_json@) },
            ),
    {
        let r = connector.native_ref().write_with_params(self.name.as_str(), params_json);
        assert(seq![params_json@][0] == params_json@);
        r
    }

    /// Wait until all written samples have been acknowledged, indefinitely.
    pub fn wait(&self) -> (r: ConnectorFallible)
        ensures
            carries_writer_message(self.writer(), r),
            writer_unit_answered(
                self.writer(),
                NativeCall::WaitForAcknowledgments { timeout_ms: native_timeout(None) },
                r,
            ),
    {
        self.impl_wait(None)
    }

    /// Wait until all written samples have been acknowledged, or until
    /// `timeout` expires.
    pub fn wait_with_timeout(&self, timeout: std::time::Duration) -> (r: ConnectorFallible)
        ensures
            carries_writer_message(self.writer(), r),
            writer_unit_answered(
                self.writer(),
                NativeCall::WaitForAcknowledgments { timeout_ms: saturated_millis(duration_millis(timeout)) },
                r,
            ),
    {
        self.impl_wait(Some(crate::ffi::timeout_from_duration(timeout)))
    }

    fn impl_wait(&self, timeout_ms: Option<i32>) -> (r: ConnectorFallible)
        ensures
            carries_writer_message(self.writer(), r),
            writer_unit_answered(
                self.writer(),
                NativeCall::WaitForAcknowledgments { timeout_ms: native_timeout(timeout_ms) },
                r,
            ),
    {
        self.native.wait_for_acknowledgments(timeout_ms)
    }

    /// Wait until a subscription is matched or unmatched, indefinitely; the
    /// change in the number of matched subscriptions.
    pub fn wait_for_subscriptions(&self) -> (r: ConnectorResult<i32>)
        ensures
            carries_writer_message(self.writer(), r),
            writer_int_answered(
                self.writer(),
                NativeCall::WaitForMatchedSubscription { timeout_ms: native_timeout(None) },
                r,
            ),
    {
        self.impl_wait_for_subscriptions(None)
    }

    /// Wait until a subscription is matched or unmatched, or until `timeout`
    /// expires; the change in the number of matched subscriptions.
    pub fn wait_for_subscriptions_with_timeout(&self, timeout: std::time::Duration) -> (r:
        ConnectorResult<i32>)
        ensures
            carries_writer_message(self.writer(), r),
            writer_int_answered(
                self.writer(),
                NativeCall::WaitForMatchedSubscription { timeout_ms: saturated_millis(duration_millis(timeout)) },
                r,
            ),
    {
        self.impl_wait_for_subscriptions(Some(crate::ffi::timeout_from_duration(timeout)))
    }

    fn impl_wait_for_subscriptions(&self, timeout_ms: Option<i32>) -> (r: ConnectorResult<i32>)
        ensures
            carries_writer_message(self.writer(), r),
            writer_int_answered(
                self.writer(),
                NativeCall::WaitForMatchedSubscription { timeout_ms: native_timeout(timeout_ms) },
                r,
            ),
    {
        self.native.wait_for_matched_subscription(timeout_ms)
    }

    /// The subscriptions currently matched, as JSON.
    pub fn display_matched_subscriptions(&self) -> (r: ConnectorResult<String>)
        ensures
            carries_writer_message(self.writer(), r),
            writer_text_answered(self.writer(), NativeCall::GetMatchedSubscriptions, r),
    {
        self.native.get_matched_subscriptions()
    }
}

/// The sample held by an [`Output`], to be modified before it is written.
#[derive(Debug)]
pub struct Instance<'a, W>(&'a Output<W>);

impl<'a, W: NativeWriter> Instance<'a, W> {
    /// The output whose sample this is.
    pub closed spec fn output(&self) -> Output<W> {
        *self.0
    }

    /// Reset the field `field` of the sample.
    pub fn clear<N: NativeApi>(&mut self, connector: &Connector<N>, field: &str) -> (r: ConnectorFallible)
        ensures
            carries_library_message(connector.native_api(), r),
            final(self).output() == old(self).output(),
            sample_update(
                r,
                connector.native_api(),
                old(self).output().entity_name(),
                seq![field@],
                NativeCall::ClearMember { entity: old(self).output().entity_name(), field: field@ },
            ),
    {
        let r = connector.native_ref().clear_member(self.0.name.as_str(), field);
        assert(seq![field@][0] == field@);
        r
    }

    /// Set the whole sample from the JSON `json_value`.
    pub fn set_as_json<N: NativeApi>(&mut self, connector: &Connector<N>, json_value: &str) -> (r:
        ConnectorFallible)
        ensures
            carries_library_message(connector.native_api(), r),
            final(self).output() == old(self).output(),
            sample_update(
                r,
                connector.native_api(),
                old(self).output().entity_name(),
                seq![json_value@],
                NativeCall::SetJsonInstance { entity: old(self).output().entity_name(), json: json_value@ },
            ),
    {
        let r = connector.native_ref().set_json_instance(self.0.name.as_str(), json_value);
        assert(seq![json_value@][0] == json_value@);
        r
    }

    /// Set the field `field` of the sample to a value of any kind, with the
    /// setter of that kind.
    pub fn set_value<N: NativeApi>(&mut self, connector: &Connector<N>, field: &str, value: SelectedValue) -> (r:
        ConnectorFallible)
        ensures
            carries_library_message(connector.native_api(), r),
            final(self).output() == old(self).output(),
            !is_c_text(old(self).output().entity_name()) || !is_c_text(field@) ==> fails_on_string(r),
            is_c_text(old(self).output().entity_name()) && is_c_text(field@) ==> set_value_answered(
                connector.native_api(),
                old(self).output().entity_name(),
                field@,
                value,
                r,
            ),
    {
        connector.native_ref().set_into_samples(self.0.name.as_str(), field, value)
    }

    /// Set the numeric field `field` of the sample, given as the bits of an `f64`.
    pub fn set_number<N: NativeApi>(&mut self, connector: &Connector<N>, field: &str, value_bits: u64) -> (r:
        ConnectorFallible)
        ensures
            carries_library_message(connector.native_api(), r),
            final(self).output() == old(self).output(),
            sample_update(
                r,
                connector.native_api(),
                old(self).output().entity_name(),
                seq![field@],
                NativeCall::SetNumberIntoSamples {
                    entity: old(self).output().entity_name(),
                    field: field@,
                    value_bits,
                },
            ),
    {
        let r = connector.native_ref().set_number_into_samples(
            self.0.name.as_str(),
            field,
            value_bits,
        );
        assert(seq![field@][0] == field@);
        r
    }

    /// Set the boolean field `field` of the sample.
    pub fn set_boolean<N: NativeApi>(&mut self, connector: &Connector<N>, field: &str, value: bool) -> (r:
        ConnectorFallible)
        ensures
            carries_library_message(connector.native_api(), r),
            final(self).output() == old(self).output(),
            sample_update(
                r,
                connector.native_api(),
                old(self).output().entity_name(),
                seq![field@],
                NativeCall::SetBooleanIntoSamples {
                    entity: old(self).output().entity_name(),
                    field: field@,
                    value: if value { 1i32 } else { 0i32 },
                },
            ),
    {
        let r = connector.native_ref().set_boolean_into_samples(self.0.name.as_str(), field, value);
        assert(seq![field@][0] == field@);
        r
    }

    /// Set the string field `field` of the sample.
    pub fn set_string<N: NativeApi>(&mut self, connector: &Connector<N>, field: &str, value: &str) -> (r:
        ConnectorFallible)
        ensures
            carries_library_message(connector.native_api(), r),
            final(self).output() == old(self).output(),
            sample_update(
                r,
                connector.native_api(),
                old(self).output().entity_name(),
                seq![field@, value@],
                NativeCall::SetStringIntoSamples {
                    entity: old(self).output().entity_name(),
                    field: field@,
                    text: value@,
                },
            ),
    {
        let r = connector.native_ref().set_string_into_samples(self.0.name.as_str(), field, value);
        proof {
            let args = seq![field@, value@];
            assert(args[0] == field@ && args[1] == value@);
            assert((exists|i: int| 0 <= i < args.len() && !is_c_text(#[trigger] args[i])) == (
            !is_c_text(field@) || !is_c_text(value@))) by {
                if !is_c_text(field@) {
                    assert(!is_c_text(args[0]));
                }
                if !is_c_text(value@) {
                    assert(!is_c_text(args[1]));
                }
            }
        }
        r
    }

    /// The whole sample, as JSON.
    pub fn get_as_json<N: NativeApi>(&self, connector: &Connector<N>) -> (r: ConnectorResult<String>)
        ensures
            carries_library_message(connector.native_api(), r),
            !is_c_text(self.output().entity_name()) ==> fails_on_string(r),
            is_c_text(self.output().entity_name()) ==> exists|text: Option<String>| #[trigger]
                connector.native_api().answers(
                    NativeCall::GetJsonInstance { entity: self.output().entity_name() },
                    NativeReply::Text(text),
                ) && string_reports(r, ReturnCode::Success, text),
    {
        connector.native_ref().get_json_instance(self.0.name.as_str())
    }

    /// The text that displays the sample: its JSON, or a placeholder when the
    /// JSON cannot be obtained.
    pub fn to_display_string<N: NativeApi>(&self, connector: &Connector<N>) -> (s: String)
        ensures
            !is_c_text(self.output().entity_name()) ==> s@ == "<error retrieving instance as JSON>"@,
            is_c_text(self.output().entity_name()) ==> exists|text: Option<String>| #[trigger]
                connector.native_api().answers(
                    NativeCall::GetJsonInstance { entity: self.output().entity_name() },
                    NativeReply::Text(text),
                ) && s@ == match text {
                    Some(t) => t@,
                    None => "<error retrieving instance as JSON>"@,
                },
    {
        match self.get_as_json(connector) {
            Ok(json) => json,
            Err(_) => String::from_str("<error retrieving instance as JSON>"),
        }
    }

    /// Set the whole sample from `json`, the serialized form of a value of
    /// the type `target_type`: a success when the native library sets it, and
    /// otherwise a serialization error that describes why it could not.
    pub fn set_serialized<N: NativeApi>(&mut self, connector: &Connector<N>, json: &str, target_type: &str) -> (r:
        ConnectorFallible)
        ensures
            carries_library_message(connector.native_api(), r),
            final(self).output() == old(self).output(),
            is_c_text(old(self).output().entity_name()) && is_c_text(json@) ==> exists|code: i32| #[trigger]
                connector.native_api().answers(
                    NativeCall::SetJsonInstance { entity: old(self).output().entity_name(), json: json@ },
                    NativeReply::Code(code),
                ) && (code == 0 ==> r is Ok) && (code != 0 ==> (r matches Err(e) && exists|cause: ConnectorError|
                #[trigger] is_json_setting_failure(e, target_type@, json@, cause) && is_failure_of(
                cause,
                return_code_of(code),
            ))),
            !is_c_text(old(self).output().entity_name()) || !is_c_text(json@) ==> (r matches Err(e)
                && exists|cause: ConnectorError| #[trigger] is_json_setting_failure(
                e,
                target_type@,
                json@,
                cause,
            ) && fails_on_string(Err::<(), ConnectorError>(cause))),
    {
        let ghost entity = self.0.name@;
        let result = self.set_as_json(connector, json);
        assert(seq![json@][0] == json@);
        match result {
            Ok(()) => Ok(()),
            Err(e) => {
                let r = Err(json_setting_failure(target_type, json, &e));
                proof {
                    assert(is_json_setting_failure(r->Err_0, target_type@, json@, e));
                    if is_c_text(entity) && is_c_text(json@) {
                        let call = NativeCall::SetJsonInstance { entity, json: json@ };
                        let code = choose|code: i32| #[trigger] connector.native_api().answers(call, NativeReply::Code(code)) && reports(result, return_code_of(code), ());
                        assert(code != 0);
                        assert(is_failure_of(e, return_code_of(code)));
                    }
                }
                r
            },
        }
    }
}

/// `e` is the serialization error for a value of type `target_type` that
/// could not be serialized because of `reason`.
pub open spec fn is_serialization_failure(e: ConnectorError, target_type: Seq<char>, reason: Seq<char>) -> bool {
    e.kind matches ErrorKind::Invalid { what, context } && what == InvalidErrorKind::Serialization
        && context@ == "Type '"@ + target_type + "' could not be serialized: "@ + reason
        && e.native_message is None
}

/// `e` is the serialization error for the JSON `json` of a value of type
/// `target_type` that could not be set into the sample because of `cause`.
pub open spec fn is_json_setting_failure(
    e: ConnectorError,
    target_type: Seq<char>,
    json: Seq<char>,
    cause: ConnectorError,
) -> bool {
    e.kind matches ErrorKind::Invalid { what, context } && what == InvalidErrorKind::Serialization
        && context@ == "Failed setting JSON serialied field ("@ + target_type + ") of type '"@ + json
        + "': "@ + error_text(cause) && e.native_message is None
}

/// The error for a value of type `target_type` that could not be serialized
/// because of `reason`.
pub fn serialization_failure(target_type: &str, reason: &str) -> (e: ConnectorError)
    ensures
        is_serialization_failure(e, target_type@, reason@),
{
    let mut context = String::from_str("Type '");
    context.append(target_type);
    context.append("' could not be serialized: ");
    context.append(reason);
    ConnectorError::new(ErrorKind::Invalid { what: InvalidErrorKind::Serialization, context })
}

/// The error for the JSON `json` of a value of type `target_type` that could
/// not be set into the sample because of `cause`.
pub fn json_setting_failure(target_type: &str, json: &str, cause: &ConnectorError) -> (e: ConnectorError)
    ensures
        is_json_setting_failure(e, target_type@, json@, *cause),
{
    let mut context = String::from_str("Failed setting JSON serialied field (");
    context.append(target_type);
    context.append(") of type '");
    context.append(json);
    context.append("': ");
    let cause_text = cause.to_text();
    context.append(cause_text.as_str());
    ConnectorError::new(ErrorKind::Invalid { what: InvalidErrorKind::Serialization, context })
}

/// The error for write parameters that could not be serialized because of
/// `reason`.
pub fn params_serialization_failure(reason: &str) -> (e: ConnectorError)
    ensures
        e.kind matches ErrorKind::Invalid { what, context } && what == InvalidErrorKind::Serialization
            && context@ == "WriteParams could not be serialized: "@ + reason@,
        e.native_message is None,
{
    let mut context = String::from_str("WriteParams could not be serialized: ");
    context.append(reason);
    ConnectorError::new(ErrorKind::Invalid { what: InvalidErrorKind::Serialization, context })
}

/// Action to perform when writing a sample.
#[derive(Debug, Clone, Copy, PartialEq, Eq, Structural)]
pub enum WriteParamsAction {
    /// Write the sample and its contents.
    Write,
    /// Dispose the instance, identified by the key fields of the sample.
    Dispose,
    /// Unregister the instance, identified by the key fields of the sample.
    Unregister,
}

impl Default for WriteParamsAction {
    fn default() -> (a: WriteParamsAction)
        ensures
            a == WriteParamsAction::Write,
    {
        WriteParamsAction::Write
    }
}

/// Identity of a written sample.
#[derive(Debug, Clone, Copy)]
pub struct WriteParamsIdentity {
    /// The GUID of the writer, as 16 bytes.
    pub writer_guid: [u8; 16],
    /// The sequence number of the sample.
    pub sequence_number: u64,
}

impl Default for WriteParamsIdentity {
    fn default() -> (id: WriteParamsIdentity)
        ensures
            forall|i: int| 0 <= i < 16 ==> id.writer_guid@[i] == 0u8,
            id.sequence_number == 0,
    {
        WriteParamsIdentity { writer_guid: [0u8; 16], sequence_number: 0 }
    }
}

/// Parameters for writing a sample. Fields left out are not sent.
#[derive(Debug, Clone, Copy)]
pub struct WriteParams {
    /// One of "write" (the default), "dispose" or "unregister".
    pub action: Option<WriteParamsAction>,
    /// The source timestamp, in nanoseconds.
    pub source_timestamp: Option<i64>,
    /// The identity of the sample.
    pub identity: Option<WriteParamsIdentity>,
    /// The identity of a related sample, for request-reply communication.
    pub related_sample_identity: Option<WriteParamsIdentity>,
}

impl Default for WriteParams {
    fn default() -> (p: WriteParams)
        ensures
            p.action is None,
            p.source_timestamp is None,
            p.identity is None,
            p.related_sample_identity is None,
    {
        WriteParams {
            action: None,
            source_timestamp: None,
            identity: None,
            related_sample_identity: None,
        }
    }
}

impl WriteParams {
    /// Parameters for a write action, with nothing else set.
    pub fn write() -> (p: WriteParams)
        ensures
            p.action == Some(WriteParamsAction::Write),
            p.source_timestamp is None,
            p.identity is None,
            p.related_sample_identity is None,
    {
        WriteParams { action: Some(WriteParamsAction::Write), ..Default::default() }
    }

    /// Parameters for a dispose action, with nothing else set.
    pub fn dispose() -> (p: WriteParams)
        ensures
            p.action == Some(WriteParamsAction::Dispose),
            p.source_timestamp is None,
            p.identity is None,
            p.related_sample_identity is None,
    {
        WriteParams { action: Some(WriteParamsAction::Dispose), ..Default::default() }
    }

    /// Parameters for an unregister action, with nothing else set.
    pub fn unregister() -> (p: WriteParams)
        ensures
            p.action == Some(WriteParamsAction::Unregister),
            p.source_timestamp is None,
            p.identity is None,
            p.related_sample_identity is None,
    {
        WriteParams { action: Some(WriteParamsAction::Unregister), ..Default::default() }
    }

    /// These parameters, with the source timestamp `timestamp`.
    pub fn with_source_timestamp(self, timestamp: i64) -> (p: WriteParams)
        ensures
            p == (WriteParams { source_timestamp: Some(timestamp), ..self }),
    {
        let mut p = self;
        p.source_timestamp = Some(timestamp);
        p
    }

    /// These parameters, with the sample identity `identity`.
    pub fn with_identity(self, identity: WriteParamsIdentity) -> (p: WriteParams)
        ensures
            p == (WriteParams { identity: Some(identity), ..self }),
    {
        let mut p = self;
        p.identity = Some(identity);
        p
    }

    /// These parameters, with the related sample identity `related_sample_identity`.
    pub fn with_related_sample_identity(self, related_sample_identity: WriteParamsIdentity) -> (p:
        WriteParams)
        ensures
            p == (WriteParams { related_sample_identity: Some(related_sample_identity), ..self }),
    {
        let mut p = self;
        p.related_sample_identity = Some(related_sample_identity);
        p
    }
}

} // verus!
