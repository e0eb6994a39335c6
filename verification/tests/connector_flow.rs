use std::cell::RefCell;
use std::rc::Rc;

use rtiddsconnector::connector::format_versions;
use rtiddsconnector::input::deserialization_failure;
use rtiddsconnector::native::{
    NativeAnyValueHolder, NativeApi, NativeCall, NativeReader, NativeReply, NativeWriter, ReturnCode,
};
use rtiddsconnector::output::{params_serialization_failure, serialization_failure};
use rtiddsconnector::{
    Connector, ConnectorError, ErrorKind, GlobalsDropGuard, InvalidErrorKind, SelectedValue,
    WriteParams, WriteParamsAction, WriteParamsIdentity,
};

const PARTICIPANT: &str = "TestDomainParticipantLibrary::SimpleParticipant";
const CONFIG: &str = "Test.xml";
const READER: &str = "TestSubscriber::TestReader";
const WRITER: &str = "TestPublisher::TestWriter";

/// What the simulated native library answers, and what it was asked.
#[derive(Debug)]
struct State {
    /// Return code of the operations that yield no value.
    code: i32,
    /// Sample cache of the reader.
    samples: Vec<(bool, String, f64)>,
    /// Calls received, in order.
    log: Vec<String>,
    /// Change in matched entities that wait operations report.
    change: i32,
}

type Shared = Rc<RefCell<State>>;

/// A simulated native connector with one reader and one writer.
#[derive(Debug)]
struct Fake<const BROKEN_VERSIONS: bool> {
    state: Shared,
}

#[derive(Debug)]
struct FakeReader {
    state: Shared,
}

#[derive(Debug)]
struct FakeWriter {
    state: Shared,
}

fn log(state: &Shared, entry: String) {
    state.borrow_mut().log.push(entry);
}

impl<const B: bool> Fake<B> {
    fn code(&self) -> i32 {
        self.state.borrow().code
    }

    fn sample(&self, index: i32) -> Option<(bool, String, f64)> {
        let st = self.state.borrow();
        if index >= 1 && (index as usize) <= st.samples.len() {
            Some(st.samples[index as usize - 1].clone())
        } else {
            None
        }
    }
}

impl NativeReader for FakeReader {
    // The stand-in may give any answer to any call.
    fn answers(&self, _call: NativeCall, _reply: NativeReply) -> bool {
        true
    }

    fn wait_for_matched_publication(&self, timeout_ms: i32) -> (i32, i32) {
        log(&self.state, format!("wait_pub {}", timeout_ms));
        let st = self.state.borrow();
        (st.code, st.change)
    }

    fn wait_for_data(&self, timeout_ms: i32) -> i32 {
        log(&self.state, format!("wait_data {}", timeout_ms));
        self.state.borrow().code
    }

    fn get_matched_publications(&self) -> (i32, Option<String>) {
        (0, Some("[{\"name\":\"TestWriter\"}]".to_string()))
    }

    fn last_error_message(&self) -> Option<String> {
        Some("reader failure".to_string())
    }
}

impl NativeWriter for FakeWriter {
    // The stand-in may give any answer to any call.
    fn answers(&self, _call: NativeCall, _reply: NativeReply) -> bool {
        true
    }

    fn wait_for_matched_subscription(&self, timeout_ms: i32) -> (i32, i32) {
        log(&self.state, format!("wait_sub {}", timeout_ms));
        let st = self.state.borrow();
        (st.code, st.change)
    }

    fn wait_for_acknowledgments(&self, timeout_ms: i32) -> i32 {
        log(&self.state, format!("wait_ack {}", timeout_ms));
        self.state.borrow().code
    }

    fn get_matched_subscriptions(&self) -> (i32, Option<String>) {
        (0, None)
    }

    fn last_error_message(&self) -> Option<String> {
        Some("writer failure".to_string())
    }
}

impl<const B: bool> NativeApi for Fake<B> {
    type Reader = FakeReader;
    type Writer = FakeWriter;
    type Sample = (String, i32);

    // The stand-in may give any answer to any call.
    fn creates(_call: NativeCall, _reply: Option<Self>) -> bool {
        true
    }

    fn writer_lookup(&self, _call: NativeCall, _reply: Option<FakeWriter>) -> bool {
        true
    }

    fn reader_lookup(&self, _call: NativeCall, _reply: Option<FakeReader>) -> bool {
        true
    }

    fn sample_lookup(&self, _call: NativeCall, _reply: Option<(String, i32)>) -> bool {
        true
    }

    fn answers(&self, _call: NativeCall, _reply: NativeReply) -> bool {
        true
    }

    fn global_answers(_call: NativeCall, _reply: NativeReply) -> bool {
        true
    }

    fn get_native_sample(&self, entity: &str, index: i32) -> Option<(String, i32)> {
        if entity == WRITER {
            Some((entity.to_string(), index))
        } else {
            None
        }
    }

    fn create(config_name: &str, _config_file: &str) -> Option<Self> {
        if config_name == PARTICIPANT {
            Some(Fake {
                state: Rc::new(RefCell::new(State {
                    code: 0,
                    samples: Vec::new(),
                    log: Vec::new(),
                    change: 1,
                })),
            })
        } else {
            None
        }
    }

    fn get_datawriter(&self, entity: &str) -> Option<FakeWriter> {
        if entity == WRITER {
            Some(FakeWriter { state: self.state.clone() })
        } else {
            None
        }
    }

    fn get_datareader(&self, entity: &str) -> Option<FakeReader> {
        if entity == READER {
            Some(FakeReader { state: self.state.clone() })
        } else {
            None
        }
    }

    fn set_number_into_samples(&self, entity: &str, field: &str, value_bits: u64) -> i32 {
        log(&self.state, format!("set_number {} {} {}", entity, field, f64::from_bits(value_bits)));
        self.code()
    }

    fn set_boolean_into_samples(&self, entity: &str, field: &str, value: i32) -> i32 {
        log(&self.state, format!("set_boolean {} {} {}", entity, field, value));
        self.code()
    }

    fn set_string_into_samples(&self, entity: &str, field: &str, value: &str) -> i32 {
        log(&self.state, format!("set_string {} {} {}", entity, field, value));
        self.code()
    }

    fn clear_member(&self, entity: &str, field: &str) -> i32 {
        log(&self.state, format!("clear_member {} {}", entity, field));
        self.code()
    }

    fn write(&self, entity: &str, params_json: Option<&str>) -> i32 {
        log(&self.state, format!("write {} {:?}", entity, params_json));
        self.code()
    }

    fn read(&self, entity: &str) -> i32 {
        log(&self.state, format!("read {}", entity));
        self.code()
    }

    fn take(&self, entity: &str) -> i32 {
        log(&self.state, format!("take {}", entity));
        self.code()
    }

    fn return_loan(&self, entity: &str) -> i32 {
        log(&self.state, format!("return_loan {}", entity));
        self.code()
    }

    fn wait_for_data(&self, timeout_ms: i32) -> i32 {
        log(&self.state, format!("wait_any {}", timeout_ms));
        self.code()
    }

    fn clear(&self, entity: &str) -> i32 {
        log(&self.state, format!("clear {}", entity));
        self.code()
    }

    fn get_boolean_from_infos(&self, _entity: &str, index: i32, field: &str) -> (i32, i32) {
        match self.sample(index) {
            Some((valid, _, _)) if field == "valid_data" => (0, if valid { 1 } else { 0 }),
            _ => (1, 0),
        }
    }

    fn get_json_from_infos(&self, _entity: &str, index: i32, field: &str) -> (i32, Option<String>) {
        match self.sample(index) {
            Some(_) => (0, Some(format!("\"{}\"", field))),
            None => (1, None),
        }
    }

    fn get_sample_count(&self, _entity: &str) -> (i32, usize) {
        (0, self.state.borrow().samples.len())
    }

    fn get_number_from_sample(&self, _entity: &str, index: i32, _field: &str) -> (i32, u64) {
        match self.sample(index) {
            Some((_, _, x)) => (0, x.to_bits()),
            None => (1, 0),
        }
    }

    fn get_boolean_from_sample(&self, _entity: &str, index: i32, _field: &str) -> (i32, i32) {
        match self.sample(index) {
            Some((valid, _, _)) => (0, if valid { 5 } else { 0 }),
            None => (1, 0),
        }
    }

    fn get_string_from_sample(&self, _entity: &str, index: i32, _field: &str) -> (i32, Option<String>) {
        match self.sample(index) {
            Some((_, color, _)) => (0, Some(color)),
            None => (1, None),
        }
    }

    fn get_any_from_sample(&self, _entity: &str, index: i32, field: &str) -> (i32, NativeAnyValueHolder) {
        let empty = NativeAnyValueHolder {
            selected: 0,
            double_bits: 0,
            bool_value: 0,
            string_value: None,
        };
        match self.sample(index) {
            Some((_, color, x)) => {
                if field == "color" {
                    (0, NativeAnyValueHolder { selected: 3, string_value: Some(color), ..empty })
                } else {
                    (0, NativeAnyValueHolder { selected: 1, double_bits: x.to_bits(), ..empty })
                }
            }
            None => (1, empty),
        }
    }

    fn get_any_from_info(&self, _entity: &str, index: i32, _field: &str) -> (i32, NativeAnyValueHolder) {
        let valid = self.sample(index).map(|s| s.0).unwrap_or(false);
        (
            0,
            NativeAnyValueHolder {
                selected: 2,
                double_bits: 0,
                bool_value: if valid { 1 } else { 0 },
                string_value: None,
            },
        )
    }

    fn get_json_sample(&self, _entity: &str, index: i32) -> (i32, Option<String>) {
        match self.sample(index) {
            Some((_, color, x)) => (0, Some(format!("{{\"color\":\"{}\",\"x\":{}}}", color, x))),
            None => (1, None),
        }
    }

    fn get_json_member(&self, _entity: &str, index: i32, member: &str) -> (i32, Option<String>) {
        match self.sample(index) {
            Some((_, color, _)) if member == "color" => (0, Some(format!("\"{}\"", color))),
            _ => (1, None),
        }
    }

    fn set_json_instance(&self, entity: &str, json: &str) -> i32 {
        log(&self.state, format!("set_json {} {}", entity, json));
        self.code()
    }

    fn get_json_instance(&self, _entity: &str) -> Option<String> {
        Some("{\"x\":1}".to_string())
    }

    fn last_error_message() -> Option<String> {
        Some("native failure".to_string())
    }

    fn build_versions() -> (i32, Option<String>, Option<String>) {
        if B {
            (1, None, None)
        } else {
            (0, Some("NDDSCORE_BUILD_7".to_string()), None)
        }
    }

    fn finalize_globals() -> i32 {
        0
    }
}

type TestConnector = Connector<Fake<false>>;

fn connector() -> TestConnector {
    Connector::new(PARTICIPANT, CONFIG).expect("the test participant exists")
}

fn shared(c: &TestConnector) -> Shared {
    c.native_ref().native().state.clone()
}

fn busy_context(e: &ConnectorError) -> String {
    match e.kind() {
        ErrorKind::EntityBusy { context } => context.clone(),
        other => panic!("not a busy error: {:?}", other),
    }
}

fn invalid_kind(e: &ConnectorError) -> Option<InvalidErrorKind> {
    match e.kind() {
        ErrorKind::Invalid { what, .. } => Some(*what),
        _ => None,
    }
}

#[test]
fn connector_is_created_from_a_known_participant() {
    let c = connector();
    assert_eq!(c.name(), PARTICIPANT);
}

#[test]
fn unknown_participant_is_not_found() {
    let e = TestConnector::new("Nope::Nothing", CONFIG).unwrap_err();
    assert!(e.is_entity_not_found());
    match e.kind() {
        ErrorKind::EntityNotFound { name } => assert_eq!(name, "Nope::Nothing"),
        other => panic!("unexpected {:?}", other),
    }
}

#[test]
fn participant_names_with_nul_are_rejected() {
    let e = TestConnector::new("bad\0name", CONFIG).unwrap_err();
    assert_eq!(invalid_kind(&e), Some(InvalidErrorKind::StringConversion));
    let e = TestConnector::new(PARTICIPANT, "bad\0file").unwrap_err();
    assert_eq!(invalid_kind(&e), Some(InvalidErrorKind::StringConversion));
}

#[test]
fn input_in_use_cannot_be_got_again() {
    let mut c = connector();
    let input = c.get_input(READER).unwrap();
    assert_eq!(input.name(), READER);
    let e = c.get_input(READER).unwrap_err();
    assert_eq!(busy_context(&e), format!("Input '{}' already in use", READER));
}

#[test]
fn released_input_can_be_got_again() {
    let mut c = connector();
    let _first = c.get_input(READER).unwrap();
    c.release_input(READER).unwrap();
    let again = c.get_input(READER).unwrap();
    assert_eq!(again.name(), READER);
}

#[test]
fn releasing_a_free_input_fails() {
    let mut c = connector();
    let e = c.release_input(READER).unwrap_err();
    assert_eq!(
        busy_context(&e),
        format!("Input named '{}' not found or already released", READER)
    );
    let _input = c.get_input(READER).unwrap();
    c.release_input(READER).unwrap();
    assert!(c.release_input(READER).is_err());
}

#[test]
fn unknown_input_is_not_found() {
    let mut c = connector();
    let e = c.get_input("TestSubscriber::Missing").unwrap_err();
    assert!(e.is_entity_not_found());
    let e = c.take_input("TestSubscriber::Missing").unwrap_err();
    assert!(e.is_entity_not_found());
}

#[test]
fn taking_an_input_in_use_asks_to_wait() {
    let mut c = connector();
    assert!(c.take_input(READER).unwrap().is_some());
    assert!(c.take_input(READER).unwrap().is_none());
    c.release_input(READER).unwrap();
    assert!(c.take_input(READER).unwrap().is_some());
}

#[test]
fn output_ownership_is_exclusive() {
    let mut c = connector();
    let output = c.get_output(WRITER).unwrap();
    assert_eq!(output.name(), WRITER);
    let e = c.get_output(WRITER).unwrap_err();
    assert_eq!(busy_context(&e), format!("Output '{}' already in use", WRITER));
    assert!(c.take_output(WRITER).unwrap().is_none());
    c.release_output(WRITER).unwrap();
    assert!(c.take_output(WRITER).unwrap().is_some());
    let e = c.release_output("TestPublisher::Other").unwrap_err();
    assert_eq!(
        busy_context(&e),
        "Output named 'TestPublisher::Other' not found or already released"
    );
}

#[test]
fn inputs_and_outputs_are_owned_independently() {
    let mut c = connector();
    let _input = c.get_input(READER).unwrap();
    let _output = c.get_output(WRITER).unwrap();
    c.release_input(READER).unwrap();
    assert!(c.get_output(WRITER).is_err());
    assert!(c.get_input(READER).is_ok());
}

#[test]
fn entity_names_with_nul_are_rejected() {
    let mut c = connector();
    let e = c.get_input("bad\0").unwrap_err();
    assert_eq!(invalid_kind(&e), Some(InvalidErrorKind::StringConversion));
    let e = c.get_output("bad\0").unwrap_err();
    assert_eq!(invalid_kind(&e), Some(InvalidErrorKind::StringConversion));
}

#[test]
fn versions_string_names_both_builds() {
    let s = TestConnector::get_versions_string();
    assert_eq!(
        s,
        "RTI Connector for Rust, version 0.1.0\nNDDSCORE_BUILD_7\n<Unknown Connector>"
    );
}

#[test]
fn versions_string_has_placeholders_when_unknown() {
    let s = Connector::<Fake<true>>::get_versions_string();
    assert_eq!(
        s,
        "RTI Connector for Rust, version 0.1.0\n<Unknown RTI Connext version>\n<Unknown RTI Connector for Rust version>"
    );
    assert_eq!(format_versions("a", "b"), "RTI Connector for Rust, version 0.1.0\na\nb");
}

#[test]
fn last_error_message_comes_from_the_native_library() {
    assert_eq!(TestConnector::get_last_error_message(), Some("native failure".to_string()));
}

#[test]
fn globals_are_finalized() {
    assert!(GlobalsDropGuard::finalize_connext_globals::<Fake<false>>().is_ok());
}

#[test]
fn write_params_constructors() {
    let p = WriteParams::write();
    assert_eq!(p.action, Some(WriteParamsAction::Write));
    assert!(p.source_timestamp.is_none() && p.identity.is_none());
    assert!(p.related_sample_identity.is_none());
    assert_eq!(WriteParams::dispose().action, Some(WriteParamsAction::Dispose));
    assert_eq!(WriteParams::unregister().action, Some(WriteParamsAction::Unregister));
    let d = WriteParams::default();
    assert!(d.action.is_none() && d.source_timestamp.is_none());
    assert_eq!(WriteParamsAction::default(), WriteParamsAction::Write);
}

#[test]
fn write_params_builders_set_one_field() {
    let id = WriteParamsIdentity { writer_guid: [7u8; 16], sequence_number: 42 };
    let p = WriteParams::dispose()
        .with_source_timestamp(1_000)
        .with_identity(id)
        .with_related_sample_identity(WriteParamsIdentity::default());
    assert_eq!(p.action, Some(WriteParamsAction::Dispose));
    assert_eq!(p.source_timestamp, Some(1_000));
    assert_eq!(p.identity.unwrap().sequence_number, 42);
    assert_eq!(p.identity.unwrap().writer_guid, [7u8; 16]);
    let rel = p.related_sample_identity.unwrap();
    assert_eq!(rel.writer_guid, [0u8; 16]);
    assert_eq!(rel.sequence_number, 0);
}

#[test]
fn serialization_error_messages() {
    let e = serialization_failure("Shape", "key must be a string");
    assert_eq!(invalid_kind(&e), Some(InvalidErrorKind::Serialization));
    match e.kind() {
        ErrorKind::Invalid { context, .. } => {
            assert_eq!(context, "Type 'Shape' could not be serialized: key must be a string")
        }
        _ => unreachable!(),
    }
    let e = deserialization_failure("{}", "Shape", "missing field `x`");
    assert_eq!(invalid_kind(&e), Some(InvalidErrorKind::Deserialization));
    match e.kind() {
        ErrorKind::Invalid { context, .. } => assert_eq!(
            context,
            "Failed deserializing JSON ({}) into type 'Shape': missing field `x`"
        ),
        _ => unreachable!(),
    }
    let e = params_serialization_failure("bad");
    assert_eq!(invalid_kind(&e), Some(InvalidErrorKind::Serialization));
}

#[test]
fn selected_values_carry_number_bits() {
    let v = SelectedValue::Number(3.25f64.to_bits());
    match v {
        SelectedValue::Number(b) => assert_eq!(f64::from_bits(b), 3.25),
        _ => unreachable!(),
    }
}

fn with_samples(c: &TestConnector, samples: &[(bool, &str, f64)]) {
    shared(c).borrow_mut().samples =
        samples.iter().map(|(v, s, x)| (*v, s.to_string(), *x)).collect();
}

fn set_code(c: &TestConnector, code: i32) {
    shared(c).borrow_mut().code = code;
}

fn last_log(c: &TestConnector) -> String {
    shared(c).borrow().log.last().cloned().unwrap_or_default()
}

#[test]
fn read_and_take_reach_the_named_reader() {
    let mut c = connector();
    let mut input = c.get_input(READER).unwrap();
    input.read(&c).unwrap();
    assert_eq!(last_log(&c), format!("read {}", READER));
    input.take(&c).unwrap();
    assert_eq!(last_log(&c), format!("take {}", READER));
    input.return_loan(&c).unwrap();
    assert_eq!(last_log(&c), format!("return_loan {}", READER));
}

#[test]
fn reading_an_empty_reader_is_no_failure() {
    let mut c = connector();
    let mut input = c.get_input(READER).unwrap();
    set_code(&c, 11);
    assert!(input.read(&c).is_ok());
    assert!(input.take(&c).is_ok());
}

#[test]
fn native_read_failures_carry_the_native_message() {
    let mut c = connector();
    let mut input = c.get_input(READER).unwrap();
    set_code(&c, 1);
    let e = input.take(&c).unwrap_err();
    assert!(e.is_native_error_code(ReturnCode::Error));
    assert_eq!(e.last_error_message(), Some("native failure".to_string()));
    set_code(&c, 12);
    let e = input.read(&c).unwrap_err();
    assert!(e.is_native_error_code(ReturnCode::IllegalOperation));
}

#[test]
fn waits_pass_their_timeouts_in_milliseconds() {
    let mut c = connector();
    let input = c.get_input(READER).unwrap();
    input.wait_with_timeout(&c, std::time::Duration::from_secs(2)).unwrap();
    assert_eq!(last_log(&c), "wait_data 2000");
    input.wait(&c).unwrap();
    assert_eq!(last_log(&c), "wait_data -1");
    c.wait_for_data_with_timeout(std::time::Duration::from_millis(750)).unwrap();
    assert_eq!(last_log(&c), "wait_any 750");
    c.wait_for_data().unwrap();
    assert_eq!(last_log(&c), "wait_any -1");
}

#[test]
fn expired_waits_are_timeouts() {
    let mut c = connector();
    let input = c.get_input(READER).unwrap();
    set_code(&c, 10);
    let e = input.wait_with_timeout(&c, std::time::Duration::from_millis(10)).unwrap_err();
    assert!(e.is_timeout());
    assert_eq!(e.last_error_message(), None);
    assert!(c.wait_for_data().unwrap_err().is_timeout());
}

#[test]
fn matched_publications_are_reported() {
    let mut c = connector();
    let input = c.get_input(READER).unwrap();
    assert_eq!(input.wait_for_publications(&c).unwrap(), 1);
    assert_eq!(last_log(&c), "wait_pub -1");
    assert_eq!(
        input
            .wait_for_publications_with_timeout(&c, std::time::Duration::from_secs(1))
            .unwrap(),
        1
    );
    assert_eq!(last_log(&c), "wait_pub 1000");
    assert_eq!(
        input.display_matched_publications(&c).unwrap(),
        "[{\"name\":\"TestWriter\"}]"
    );
}

#[test]
fn samples_are_iterated_in_order() {
    let mut c = connector();
    let input = c.get_input(READER).unwrap();
    with_samples(&c, &[(true, "RED", 1.0), (false, "GREEN", 2.0), (true, "BLUE", 3.5)]);
    let mut it = input.iter(&c);
    assert_eq!(it.len(), 3);
    assert_eq!(it.size_hint(), (3, Some(3)));
    let mut colors = Vec::new();
    while let Some(sample) = it.next() {
        colors.push(sample.get_string(&c, "color").unwrap());
    }
    assert_eq!(colors, vec!["RED", "GREEN", "BLUE"]);
    assert_eq!(it.len(), 0);
    assert!(it.next().is_none());
}

#[test]
fn valid_only_skips_samples_without_valid_data() {
    let mut c = connector();
    let input = c.get_input(READER).unwrap();
    with_samples(&c, &[(true, "RED", 1.0), (false, "GREEN", 2.0), (true, "BLUE", 3.5)]);
    let mut valid = input.iter(&c).valid_only();
    assert_eq!(valid.size_hint(), (0, Some(3)));
    let mut indices = Vec::new();
    while let Some(sample) = valid.next(&c) {
        assert!(sample.is_valid(&c).unwrap());
        indices.push(sample.index());
    }
    assert_eq!(indices, vec![0, 2]);
}

#[test]
fn empty_cache_yields_no_sample() {
    let mut c = connector();
    let input = c.get_input(READER).unwrap();
    let mut it = input.iter(&c);
    assert_eq!(it.len(), 0);
    assert!(it.next().is_none());
    assert!(input.iter(&c).valid_only().next(&c).is_none());
}

#[test]
fn sample_fields_are_read_by_kind() {
    let mut c = connector();
    let input = c.get_input(READER).unwrap();
    with_samples(&c, &[(true, "RED", 1.5)]);
    let mut it = input.iter(&c);
    let sample = it.next().unwrap();
    assert_eq!(f64::from_bits(sample.get_number(&c, "x").unwrap()), 1.5);
    assert!(sample.get_boolean(&c, "flag").unwrap());
    match sample.get_value(&c, "color").unwrap() {
        SelectedValue::String(s) => assert_eq!(s, "RED"),
        other => panic!("unexpected {:?}", other),
    }
    match sample.get_value(&c, "x").unwrap() {
        SelectedValue::Number(b) => assert_eq!(f64::from_bits(b), 1.5),
        other => panic!("unexpected {:?}", other),
    }
    assert_eq!(sample.get_value_json(&c, "color").unwrap(), "\"RED\"");
    match sample.get_info(&c, "valid_data").unwrap() {
        SelectedValue::Boolean(b) => assert!(b),
        other => panic!("unexpected {:?}", other),
    }
    assert_eq!(sample.get_info_json(&c, "source_timestamp").unwrap(), "\"source_timestamp\"");
    assert_eq!(sample.get_as_json(&c).unwrap(), "{\"color\":\"RED\",\"x\":1.5}");
    assert_eq!(sample.to_display_string(&c), "{\"color\":\"RED\",\"x\":1.5}");
    assert_eq!(
        sample.json_for_deserialization(&c, "Shape").unwrap(),
        "{\"color\":\"RED\",\"x\":1.5}"
    );
}

#[test]
fn failing_sample_accesses() {
    let mut c = connector();
    let input = c.get_input(READER).unwrap();
    with_samples(&c, &[(true, "RED", 1.5)]);
    let e = input.get_string(&c, 5, "color").unwrap_err();
    assert!(e.is_native_error_code(ReturnCode::Error));
    let e = input.get_string(&c, 0, "co\0lor").unwrap_err();
    assert_eq!(invalid_kind(&e), Some(InvalidErrorKind::StringConversion));
    let e = input.get_string(&c, i32::MAX as usize + 1, "color").unwrap_err();
    assert_eq!(invalid_kind(&e), Some(InvalidErrorKind::Argument));
    let e = input.get_json(&c, 3).unwrap_err();
    assert!(e.is_native_error());
}

#[test]
fn missing_sample_json_is_a_deserialization_error() {
    let mut c = connector();
    let input = c.get_input(READER).unwrap();
    with_samples(&c, &[(true, "RED", 1.5)]);
    let mut it = input.iter(&c);
    let sample = it.next().unwrap();
    with_samples(&c, &[]);
    let e = sample.json_for_deserialization(&c, "Shape").unwrap_err();
    assert_eq!(invalid_kind(&e), Some(InvalidErrorKind::Deserialization));
    match e.kind() {
        ErrorKind::Invalid { context, .. } => assert_eq!(
            context,
            "Failed getting JSON for deserialization of type 'Shape': Native error: Error (native failure)"
        ),
        _ => unreachable!(),
    }
    assert_eq!(sample.to_display_string(&c), "<error retrieving sample as JSON>");
}

#[test]
fn instance_setters_reach_the_named_writer() {
    let mut c = connector();
    let output = c.get_output(WRITER).unwrap();
    let mut instance = output.instance();
    instance.set_number(&c, "x", 100.0f64.to_bits()).unwrap();
    assert_eq!(last_log(&c), format!("set_number {} x 100", WRITER));
    instance.set_boolean(&c, "flag", true).unwrap();
    assert_eq!(last_log(&c), format!("set_boolean {} flag 1", WRITER));
    instance.set_boolean(&c, "flag", false).unwrap();
    assert_eq!(last_log(&c), format!("set_boolean {} flag 0", WRITER));
    instance.set_string(&c, "color", "BLUE").unwrap();
    assert_eq!(last_log(&c), format!("set_string {} color BLUE", WRITER));
    instance.clear(&c, "color").unwrap();
    assert_eq!(last_log(&c), format!("clear_member {} color", WRITER));
    instance.set_as_json(&c, "{\"x\":1}").unwrap();
    assert_eq!(last_log(&c), format!("set_json {} {{\"x\":1}}", WRITER));
    assert_eq!(instance.get_as_json(&c).unwrap(), "{\"x\":1}");
    assert_eq!(instance.to_display_string(&c), "{\"x\":1}");
}

#[test]
fn set_value_uses_the_setter_of_its_kind() {
    let mut c = connector();
    let output = c.get_output(WRITER).unwrap();
    let mut instance = output.instance();
    instance.set_value(&c, "y", SelectedValue::Number(2.5f64.to_bits())).unwrap();
    assert_eq!(last_log(&c), format!("set_number {} y 2.5", WRITER));
    instance.set_value(&c, "b", SelectedValue::Boolean(true)).unwrap();
    assert_eq!(last_log(&c), format!("set_boolean {} b 1", WRITER));
    instance.set_value(&c, "s", SelectedValue::String("Hello".to_string())).unwrap();
    assert_eq!(last_log(&c), format!("set_string {} s Hello", WRITER));
    let e = instance
        .set_value(&c, "s", SelectedValue::String("He\0llo".to_string()))
        .unwrap_err();
    assert_eq!(invalid_kind(&e), Some(InvalidErrorKind::StringConversion));
}

#[test]
fn setter_failures_are_reported() {
    let mut c = connector();
    let output = c.get_output(WRITER).unwrap();
    let mut instance = output.instance();
    let e = instance.set_string(&c, "color", "BL\0UE").unwrap_err();
    assert_eq!(invalid_kind(&e), Some(InvalidErrorKind::StringConversion));
    set_code(&c, 1);
    let e = instance.set_number(&c, "x", 0).unwrap_err();
    assert!(e.is_native_error_code(ReturnCode::Error));
    let e = instance.set_serialized(&c, "{\"x\":1}", "Shape").unwrap_err();
    assert_eq!(invalid_kind(&e), Some(InvalidErrorKind::Serialization));
    match e.kind() {
        ErrorKind::Invalid { context, .. } => assert_eq!(
            context,
            "Failed setting JSON serialied field (Shape) of type '{\"x\":1}': Native error: Error (native failure)"
        ),
        _ => unreachable!(),
    }
}

#[test]
fn serialized_samples_are_set_as_json() {
    let mut c = connector();
    let output = c.get_output(WRITER).unwrap();
    let mut instance = output.instance();
    instance.set_serialized(&c, "{\"x\":2}", "Shape").unwrap();
    assert_eq!(last_log(&c), format!("set_json {} {{\"x\":2}}", WRITER));
}

#[test]
fn writes_reach_the_named_writer() {
    let mut c = connector();
    let mut output = c.get_output(WRITER).unwrap();
    output.write(&c).unwrap();
    assert_eq!(last_log(&c), format!("write {} None", WRITER));
    output.write_with_params(&c, "{\"action\":\"dispose\"}").unwrap();
    assert_eq!(
        last_log(&c),
        format!("write {} Some(\"{{\\\"action\\\":\\\"dispose\\\"}}\")", WRITER)
    );
    output.clear_members(&c).unwrap();
    assert_eq!(last_log(&c), format!("clear {}", WRITER));
    let e = output.write_with_params(&c, "bad\0").unwrap_err();
    assert_eq!(invalid_kind(&e), Some(InvalidErrorKind::StringConversion));
}

#[test]
fn writer_waits_and_matches() {
    let mut c = connector();
    let output = c.get_output(WRITER).unwrap();
    output.wait().unwrap();
    assert_eq!(last_log(&c), "wait_ack -1");
    output.wait_with_timeout(std::time::Duration::from_secs(3)).unwrap();
    assert_eq!(last_log(&c), "wait_ack 3000");
    assert_eq!(output.wait_for_subscriptions().unwrap(), 1);
    assert_eq!(
        output
            .wait_for_subscriptions_with_timeout(std::time::Duration::from_millis(5))
            .unwrap(),
        1
    );
    assert_eq!(last_log(&c), "wait_sub 5");
    let e = output.display_matched_subscriptions().unwrap_err();
    assert_eq!(invalid_kind(&e), Some(InvalidErrorKind::StringConversion));
    set_code(&c, 10);
    assert!(output.wait().unwrap_err().is_timeout());
    set_code(&c, 1);
    let e = output.wait().unwrap_err();
    assert_eq!(e.last_error_message(), Some("writer failure".to_string()));
}

#[test]
fn native_samples_are_addressed_by_one_based_index() {
    let c = connector();
    let sample = c.native_ref().get_native_sample(WRITER, 0).unwrap();
    assert_eq!(sample.native(), &(WRITER.to_string(), 1));
    let sample = c.native_ref().get_native_sample(WRITER, 41).unwrap();
    assert_eq!(sample.native().1, 42);
    let e = c.native_ref().get_native_sample(READER, 0).unwrap_err();
    assert!(e.is_entity_not_found());
    let e = c.native_ref().get_native_sample("no\0pe", 0).unwrap_err();
    assert_eq!(invalid_kind(&e), Some(InvalidErrorKind::StringConversion));
    let e = c.native_ref().get_native_sample(WRITER, i32::MAX as usize + 1).unwrap_err();
    assert_eq!(invalid_kind(&e), Some(InvalidErrorKind::Argument));
}
