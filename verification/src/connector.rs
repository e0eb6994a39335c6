//! The connector: the entry point of the API, owner of the native participant
//! and of the inputs and outputs taken from it.
//!
//! A [`Connector`] enforces exclusive ownership of its inputs and outputs: an
//! input or output named `n` can be held by one owner at a time. Getting one
//! that is in use fails; taking one that is in use asks the caller to wait
//! for its release; releasing one that is not in use fails.

use vstd::prelude::*;

use crate::ffi::{
    carries_library_message, FfiConnector, build_versions_answered, duration_millis, nonempty_message_of, fails_on_string,
    native_timeout, saturated_millis, timeout_from_duration, unit_answered,
};
use crate::input::Input;
use crate::native::{NativeApi, NativeCall, NativeReply, is_c_text};
use crate::output::Output;
use crate::result::{ConnectorFallible, ConnectorResult, ErrorKind, is_busy, is_not_found};

verus! {

/// A value of a sample field: a number, a boolean or a string.
///
/// Numbers are held as the bit pattern of their IEEE-754 double
/// (`f64::to_bits`), which the library carries without interpreting.
/// Complex members are held as JSON strings.
#[derive(Debug, Clone)]
pub enum SelectedValue {
    /// A numeric value, as the bits of an `f64`.
    Number(u64),
    /// A boolean value.
    Boolean(bool),
    /// A string value.
    String(String),
}

impl SelectedValue {
    /// A boolean value.
    pub fn from_bool(v: bool) -> (s: SelectedValue)
        ensures
            s == SelectedValue::Boolean(v),
    {
        SelectedValue::Boolean(v)
    }

    /// A string value.
    pub fn from_string(v: String) -> (s: SelectedValue)
        ensures
            s == SelectedValue::String(v),
    {
        SelectedValue::String(v)
    }

    /// A string value, copied from `v`.
    pub fn from_str(v: &str) -> (s: SelectedValue)
        ensures
            s matches SelectedValue::String(t) && t@ == v@,
    {
        SelectedValue::String(String::from_str(v))
    }
}

/// How to acquire an entity that is in use.
#[derive(Debug, Clone, Copy, PartialEq, Eq, Structural)]
pub enum BlockingBehavior {
    /// Fail at once.
    NonBlocking,
    /// Wait until its owner releases it.
    BlockForever,
}

/// The outcome of an attempt to acquire an entity.
#[derive(Debug, Clone, Copy, PartialEq, Eq, Structural)]
pub enum Acquire {
    /// The entity was free and is now owned by the caller.
    Acquired,
    /// The entity is in use; the attempt fails.
    Busy,
    /// The entity is in use; the caller waits for its release and tries again.
    Wait,
}

/// The entities in use after acquiring `name` from `in_use` with `behavior`,
/// and the outcome of the attempt.
pub open spec fn acquire_step(
    in_use: Set<Seq<char>>,
    name: Seq<char>,
    behavior: BlockingBehavior,
) -> (Set<Seq<char>>, Acquire) {
    if !in_use.contains(name) {
        (in_use.insert(name), Acquire::Acquired)
    } else if behavior == BlockingBehavior::NonBlocking {
        (in_use, Acquire::Busy)
    } else {
        (in_use, Acquire::Wait)
    }
}

/// The entities in use after releasing `name` from `in_use`, and whether
/// `name` was in use.
pub open spec fn release_step(in_use: Set<Seq<char>>, name: Seq<char>) -> (Set<Seq<char>>, bool) {
    if in_use.contains(name) {
        (in_use.remove(name), true)
    } else {
        (in_use, false)
    }
}

/// `r` is the outcome of acquiring `name` from `in_use` with `behavior`: the
/// entity when it is acquired, nothing when the caller must wait, and a busy
/// error naming it with `label` when the attempt fails.
pub open spec fn acquired_as<T>(
    r: ConnectorResult<Option<T>>,
    in_use: Set<Seq<char>>,
    name: Seq<char>,
    behavior: BlockingBehavior,
    label: Seq<char>,
) -> bool {
    match acquire_step(in_use, name, behavior).1 {
        Acquire::Acquired => r matches Ok(Some(_)),
        Acquire::Wait => r matches Ok(None),
        Acquire::Busy => r matches Err(e) && is_busy(e, busy_message(label, name)),
    }
}

/// The message of a failed non-blocking acquisition.
pub open spec fn busy_message(label: Seq<char>, name: Seq<char>) -> Seq<char> {
    label + " '"@ + name + "' already in use"@
}

/// The message of an entity registered twice.
pub open spec fn registered_message(label: Seq<char>, name: Seq<char>) -> Seq<char> {
    label + " named '"@ + name + "' already in use"@
}

/// The message of the release of an entity that is not in use.
pub open spec fn not_owned_message(label: Seq<char>, name: Seq<char>) -> Seq<char> {
    label + " named '"@ + name + "' not found or already released"@
}

/// `label`, followed by `middle`, `name` and `end`.
fn message(label: &str, middle: &str, name: &str, end: &str) -> (s: String)
    ensures
        s@ == label@ + middle@ + name@ + end@,
{
    let mut s = String::from_str(label);
    s.append(middle);
    s.append(name);
    s.append(end);
    s
}

/// The names of the entities of one kind that are in use.
#[derive(Debug)]
pub struct EntityHolder {
    names: Vec<String>,
}

impl View for EntityHolder {
    type V = Set<Seq<char>>;

    closed spec fn view(&self) -> Set<Seq<char>> {
        Set::new(|n: Seq<char>| exists|i: int| 0 <= i < self.names@.len() && self.names@[i]@ == n)
    }
}

impl EntityHolder {
    /// No name occurs twice.
    pub closed spec fn wf(&self) -> bool {
        forall|i: int, j: int|
            0 <= i < self.names@.len() && 0 <= j < self.names@.len() && i != j
                ==> self.names@[i]@ != self.names@[j]@
    }

    /// No entity in use.
    pub fn new() -> (h: EntityHolder)
        ensures
            h.wf(),
            h@ == Set::<Seq<char>>::empty(),
    {
        let h = EntityHolder { names: Vec::new() };
        assert(h@ =~= Set::<Seq<char>>::empty());
        h
    }

    /// The position of `name` among the names in use, if it is in use.
    fn position(&self, name: &String) -> (p: Option<usize>)
        ensures
            p matches Some(i) ==> i < self.names@.len() && self.names@[i as int]@ == name@,
            p is None ==> !self@.contains(name@),
    {
        let mut i: usize = 0;
        while i < self.names.len()
            invariant
                i <= self.names@.len(),
                forall|j: int| 0 <= j < i ==> self.names@[j]@ != name@,
            decreases self.names@.len() - i,
        {
            if self.names[i] == *name {
                return Some(i);
            }
            i = i + 1;
        }
        None
    }

    /// Whether the entity `name` is in use.
    pub fn contains(&self, name: &str) -> (b: bool)
        ensures
            b == self@.contains(name@),
    {
        let key = String::from_str(name);
        match self.position(&key) {
            Some(_) => true,
            None => false,
        }
    }

    /// Register `name` as in use, failing if it already is.
    pub fn get_entity_from_guard(&mut self, name: &str, label: &str) -> (r: ConnectorFallible)
        requires
            old(self).wf(),
        ensures
            final(self).wf(),
            old(self)@.contains(name@) ==> final(self)@ == old(self)@ && (r matches Err(e) && is_busy(
                e,
                registered_message(label@, name@),
            )),
            !old(self)@.contains(name@) ==> final(self)@ == old(self)@.insert(name@) && r is Ok,
    {
        let key = String::from_str(name);
        match self.position(&key) {
            Some(_) => ErrorKind::entity_busy_error(
                message(label, " named '", name, "' already in use"),
            ).into_err(),
            None => {
                let ghost before = self.names@;
                self.names.push(key);
                assert(self@ =~= old(self)@.insert(name@)) by {
                    assert forall|n: Seq<char>| self@.contains(n) implies old(self)@.insert(
                        name@,
                    ).contains(n) by {
                        let i = choose|i: int| 0 <= i < self.names@.len() && self.names@[i]@ == n;
                        if i < before.len() {
                            assert(before[i] == self.names@[i]);
                        }
                    }
                    assert forall|n: Seq<char>| old(self)@.insert(name@).contains(n) implies self@.contains(
                        n,
                    ) by {
                        if n == name@ {
                            assert(self.names@[before.len() as int]@ == n);
                        } else {
                            let i = choose|i: int| 0 <= i < before.len() && before[i]@ == n;
                            assert(self.names@[i] == before[i]);
                        }
                    }
                }
                Ok(())
            },
        }
    }

    /// Release `name`, failing if it is not in use.
    pub fn release_entity(&mut self, name: &str, label: &str) -> (r: ConnectorFallible)
        requires
            old(self).wf(),
        ensures
            final(self).wf(),
            final(self)@ == release_step(old(self)@, name@).0,
            release_step(old(self)@, name@).1 ==> r is Ok,
            !release_step(old(self)@, name@).1 ==> (r matches Err(e) && is_busy(
                e,
                not_owned_message(label@, name@),
            )),
    {
        let key = String::from_str(name);
        match self.position(&key) {
            None => ErrorKind::entity_busy_error(
                message(label, " named '", name, "' not found or already released"),
            ).into_err(),
            Some(i) => {
                let ghost before = self.names@;
                assert(old(self)@.contains(name@));
                self.names.remove(i);
                assert(self@ =~= old(self)@.remove(name@)) by {
                    assert forall|n: Seq<char>| self@.contains(n) implies old(self)@.remove(
                        name@,
                    ).contains(n) by {
                        let j = choose|j: int| 0 <= j < self.names@.len() && self.names@[j]@ == n;
                        if j < i {
                            assert(self.names@[j] == before[j]);
                        } else {
                            assert(self.names@[j] == before[j + 1]);
                        }
                    }
                    assert forall|n: Seq<char>| old(self)@.remove(name@).contains(n) implies self@.contains(
                        n,
                    ) by {
                        let j = choose|j: int| 0 <= j < before.len() && before[j]@ == n;
                        if j < i {
                            assert(self.names@[j] == before[j]);
                        } else {
                            assert(j != i);
                            assert(self.names@[j - 1] == before[j]);
                        }
                    }
                }
                Ok(())
            },
        }
    }

    /// Acquire `name` with `behavior`: `Ok(true)` when it is now owned by the
    /// caller, `Ok(false)` when the caller must wait for its release, and a
    /// busy error when it is in use and the caller does not wait.
    pub fn acquire_entity(&mut self, name: &str, behavior: BlockingBehavior, label: &str) -> (r:
        ConnectorResult<bool>)
        requires
            old(self).wf(),
        ensures
            final(self).wf(),
            final(self)@ == acquire_step(old(self)@, name@, behavior).0,
            acquire_step(old(self)@, name@, behavior).1 == Acquire::Acquired ==> r == Ok::<
                bool,
                crate::result::ConnectorError,
            >(true),
            acquire_step(old(self)@, name@, behavior).1 == Acquire::Wait ==> r == Ok::<
                bool,
                crate::result::ConnectorError,
            >(false),
            acquire_step(old(self)@, name@, behavior).1 == Acquire::Busy ==> (r matches Err(e)
                && is_busy(e, busy_message(label@, name@))),
    {
        if !self.contains(name) {
            match self.get_entity_from_guard(name, label) {
                Ok(()) => Ok(true),
                Err(e) => Err(e),
            }
        } else {
            match behavior {
                BlockingBehavior::NonBlocking => ErrorKind::entity_busy_error(
                    message(label, " '", name, "' already in use"),
                ).into_err(),
                BlockingBehavior::BlockForever => Ok(false),
            }
        }
    }
}

/// Acquiring a free entity and then releasing it leaves the entities in use
/// as they were.
pub proof fn law_release_undoes_acquire(in_use: Set<Seq<char>>, name: Seq<char>, behavior: BlockingBehavior)
    requires
        !in_use.contains(name),
    ensures
        acquire_step(in_use, name, behavior).1 == Acquire::Acquired,
        release_step(acquire_step(in_use, name, behavior).0, name) == (in_use, true),
{
    assert(in_use.insert(name).remove(name) =~= in_use);
}

/// An entity has one owner at a time: once acquired, acquiring it again fails
/// (or waits) until it is released, after which it can be acquired again.
pub proof fn law_exclusive_ownership(in_use: Set<Seq<char>>, name: Seq<char>)
    ensures
        acquire_step(in_use, name, BlockingBehavior::NonBlocking).0.contains(name),
        acquire_step(acquire_step(in_use, name, BlockingBehavior::NonBlocking).0, name, BlockingBehavior::NonBlocking).1 == Acquire::Busy,
        acquire_step(acquire_step(in_use, name, BlockingBehavior::NonBlocking).0, name, BlockingBehavior::BlockForever).1 == Acquire::Wait,
        acquire_step(release_step(in_use, name).0, name, BlockingBehavior::NonBlocking).1 == Acquire::Acquired,
{
}

/// Releasing an entity that is not in use fails and changes nothing.
pub proof fn law_release_of_free_entity(in_use: Set<Seq<char>>, name: Seq<char>)
    requires
        !in_use.contains(name),
    ensures
        release_step(in_use, name) == (in_use, false),
{
}

/// Acquiring or releasing one entity leaves every other entity as it was.
pub proof fn law_other_entities_unaffected(
    in_use: Set<Seq<char>>,
    name: Seq<char>,
    other: Seq<char>,
    behavior: BlockingBehavior,
)
    requires
        name != other,
    ensures
        acquire_step(in_use, name, behavior).0.contains(other) == in_use.contains(other),
        release_step(in_use, name).0.contains(other) == in_use.contains(other),
{
}

/// The version of this library.
pub const CONNECTOR_VERSION: &'static str = "0.1.0";

/// The text of the versions string, given the build identifiers of RTI Connext
/// and of the native connector.
pub open spec fn versions_text(connext: Seq<char>, native: Seq<char>) -> Seq<char> {
    "RTI Connector for Rust, version "@ + CONNECTOR_VERSION@ + "\n"@ + connext + "\n"@ + native
}

/// The text of the versions string for the result `lookup` of the lookup of
/// the build identifiers: the identifiers, or placeholders when the lookup failed.
pub open spec fn versions_of_lookup(lookup: ConnectorResult<(String, String)>) -> Seq<char> {
    match lookup {
        Ok((connext, native)) => versions_text(connext@, native@),
        Err(_) => versions_text(
            "<Unknown RTI Connext version>"@,
            "<Unknown RTI Connector for Rust version>"@,
        ),
    }
}

/// The versions string for the result `lookup` of the lookup of the build
/// identifiers.
pub fn versions_string_of(lookup: ConnectorResult<(String, String)>) -> (s: String)
    ensures
        s@ == versions_of_lookup(lookup),
{
    match lookup {
        Ok((connext, native)) => format_versions(connext.as_str(), native.as_str()),
        Err(_) => format_versions(
            "<Unknown RTI Connext version>",
            "<Unknown RTI Connector for Rust version>",
        ),
    }
}

/// The versions string, given the build identifiers of RTI Connext and of
/// the native connector.
pub fn format_versions(connext: &str, native: &str) -> (s: String)
    ensures
        s@ == versions_text(connext@, native@),
{
    let mut s = String::from_str("RTI Connector for Rust, version ");
    s.append(CONNECTOR_VERSION);
    s.append("\n");
    s.append(connext);
    s.append("\n");
    s.append(native);
    s
}

/// The main interface of the API: a DDS `DomainParticipant` created from an
/// XML configuration, with the inputs and outputs that it contains.
///
/// Inputs and outputs are owned exclusively: [`Connector::get_input`] and
/// [`Connector::get_output`] fail for an entity in use,
/// [`Connector::take_input`] and [`Connector::take_output`] ask the caller to
/// wait for its release, and [`Connector::release_input`] and
/// [`Connector::release_output`] give an entity back.
#[derive(Debug)]
pub struct Connector<N> {
    name: String,
    native: FfiConnector<N>,
    inputs: EntityHolder,
    outputs: EntityHolder,
}

impl<N: NativeApi> Connector<N> {
    /// The name of the configuration that this connector was created from.
    pub closed spec fn config_name(&self) -> Seq<char> {
        self.name@
    }

    /// The names of the inputs in use.
    pub closed spec fn inputs_in_use(&self) -> Set<Seq<char>> {
        self.inputs@
    }

    /// The names of the outputs in use.
    pub closed spec fn outputs_in_use(&self) -> Set<Seq<char>> {
        self.outputs@
    }

    /// The connector is well formed.
    pub closed spec fn wf(&self) -> bool {
        self.inputs.wf() && self.outputs.wf()
    }

    /// A string that describes the versions of this library and of the
    /// native libraries, with placeholders for what the native library does
    /// not give.
    pub fn get_versions_string() -> (s: String)
        ensures
            exists|lookup: ConnectorResult<(String, String)>| #[trigger] build_versions_answered::<N>(lookup)
                && s@ == versions_of_lookup(lookup),
    {
        versions_string_of(FfiConnector::<N>::get_build_versions())
    }

    /// The last error message of the native library, if it recorded one.
    pub fn get_last_error_message() -> (m: Option<String>)
        ensures
            m matches Some(s) ==> s@.len() > 0,
            exists|native: Option<String>| #[trigger] N::global_answers(
                NativeCall::LastErrorMessage,
                NativeReply::Text(native),
            ) && m == nonempty_message_of(native),
    {
        FfiConnector::<N>::get_last_error_message()
    }

    /// Create a connector from the participant `config_name` of the XML file
    /// `config_file`, with no input or output in use.
    pub fn new(config_name: &str, config_file: &str) -> (r: ConnectorResult<Connector<N>>)
        ensures
            !is_c_text(config_name@) || !is_c_text(config_file@) ==> fails_on_string(r),
            is_c_text(config_name@) && is_c_text(config_file@) ==> r is Ok || (r matches Err(e)
                && is_not_found(e, config_name@)),
            is_c_text(config_name@) && is_c_text(config_file@) ==> exists|reply: Option<N>| #[trigger]
                N::creates(NativeCall::Create { config_name: config_name@, config_file: config_file@ }, reply) && match reply {
                    Some(n) => r matches Ok(c) && c.native_api() == n,
                    None => r matches Err(e) && is_not_found(e, config_name@),
                },
            r matches Ok(c) ==> c.wf() && c.config_name() == config_name@ && c.inputs_in_use()
                == Set::<Seq<char>>::empty() && c.outputs_in_use() == Set::<Seq<char>>::empty(),
    {
        let native = match FfiConnector::new(config_name, config_file) {
            Ok(n) => n,
            Err(e) => {
                return Err(e);
            },
        };
        Ok(
            Connector {
                name: String::from_str(config_name),
                native,
                inputs: EntityHolder::new(),
                outputs: EntityHolder::new(),
            },
        )
    }

    /// The name of the configuration that this connector was created from.
    pub fn name(&self) -> (n: &str)
        ensures
            n@ == self.config_name(),
    {
        self.name.as_str()
    }

    /// The native participant of this connector.
    pub closed spec fn participant(&self) -> FfiConnector<N> {
        self.native
    }

    /// The native participant's own handle.
    pub closed spec fn native_api(&self) -> N {
        self.native.inner()
    }

    /// The native participant's handle is the one that the participant wraps.
    pub proof fn lemma_native_api(&self)
        ensures
            self.native_api() == self.participant().inner(),
    {
    }

    /// The native participant.
    pub fn native_ref(&self) -> (n: &FfiConnector<N>)
        ensures
            *n == self.participant(),
            n.inner() == self.native_api(),
    {
        &self.native
    }

    /// Wait until data is available on any input, indefinitely.
    pub fn wait_for_data(&self) -> (r: ConnectorFallible)
        ensures
            carries_library_message(self.native_api(), r),
            unit_answered(self.native_api(), NativeCall::WaitForData { timeout_ms: native_timeout(None) }, r),
    {
        self.impl_wait_for_data(None)
    }

    /// Wait until data is available on any input, or until `timeout` expires.
    pub fn wait_for_data_with_timeout(&self, timeout: std::time::Duration) -> (r: ConnectorFallible)
        ensures
            carries_library_message(self.native_api(), r),
            unit_answered(
                self.native_api(),
                NativeCall::WaitForData { timeout_ms: saturated_millis(duration_millis(timeout)) },
                r,
            ),
    {
        self.impl_wait_for_data(Some(timeout_from_duration(timeout)))
    }

    fn impl_wait_for_data(&self, timeout: Option<i32>) -> (r: ConnectorFallible)
        ensures
            carries_library_message(self.native_api(), r),
            unit_answered(self.native_api(), NativeCall::WaitForData { timeout_ms: native_timeout(timeout) }, r),
    {
        self.native.wait_for_data(timeout)
    }

    /// Get the input named `name`, which must not be in use.
    pub fn get_input(&mut self, name: &str) -> (r: ConnectorResult<Input>)
        requires
            old(self).wf(),
        ensures
            final(self).wf(),
            final(self).config_name() == old(self).config_name(),
            final(self).outputs_in_use() == old(self).outputs_in_use(),
            r matches Ok(input) ==> input.entity_name() == name@,
            r is Ok ==> final(self).inputs_in_use() == acquire_step(
                old(self).inputs_in_use(),
                name@,
                BlockingBehavior::NonBlocking,
            ).0 && !old(self).inputs_in_use().contains(name@),
            r is Err ==> final(self).inputs_in_use() == old(self).inputs_in_use(),
            final(self).native_api() == old(self).native_api(),
            !is_c_text(name@) ==> fails_on_string(r),
            is_c_text(name@) ==> exists|reply: Option<N::Reader>| #[trigger]
                old(self).native_api().reader_lookup(NativeCall::GetDataReader { entity: name@ }, reply) && (reply is None ==> (r matches Err(e)
                && is_not_found(e, name@))) && (reply is Some && !old(self).inputs_in_use().contains(name@)
                ==> r is Ok) && (reply is Some && old(self).inputs_in_use().contains(name@) ==> (r matches Err(e)
                && is_busy(e, busy_message("Input"@, name@)))),
    {
        match self.acquire_input(name, BlockingBehavior::NonBlocking) {
            Ok(Some(input)) => Ok(input),
            Ok(None) => ErrorKind::entity_busy_error(message("Input", " '", name, "' already in use")).into_err(),
            Err(e) => Err(e),
        }
    }

    /// Get the input named `name`: `Some` when it was free and is now owned by
    /// the caller, `None` when it is in use and the caller must wait for its
    /// release and ask again.
    pub fn take_input(&mut self, name: &str) -> (r: ConnectorResult<Option<Input>>)
        requires
            old(self).wf(),
        ensures
            final(self).wf(),
            final(self).config_name() == old(self).config_name(),
            final(self).outputs_in_use() == old(self).outputs_in_use(),
            r matches Ok(Some(input)) ==> input.entity_name() == name@ && final(self).inputs_in_use()
                == old(self).inputs_in_use().insert(name@) && !old(self).inputs_in_use().contains(name@),
            r matches Ok(None) ==> final(self).inputs_in_use() == old(self).inputs_in_use()
                && old(self).inputs_in_use().contains(name@),
            r is Err ==> final(self).inputs_in_use() == old(self).inputs_in_use(),
            final(self).native_api() == old(self).native_api(),
            !is_c_text(name@) ==> fails_on_string(r),
            is_c_text(name@) ==> exists|reply: Option<N::Reader>| #[trigger]
                old(self).native_api().reader_lookup(NativeCall::GetDataReader { entity: name@ }, reply) && (reply is None ==> (r matches Err(e)
                && is_not_found(e, name@))) && (reply is Some && !old(self).inputs_in_use().contains(name@)
                ==> r matches Ok(Some(_))) && (reply is Some && old(self).inputs_in_use().contains(name@)
                ==> r matches Ok(None)),
    {
        self.acquire_input(name, BlockingBehavior::BlockForever)
    }

    fn acquire_input(&mut self, name: &str, behavior: BlockingBehavior) -> (r: ConnectorResult<
        Option<Input>,
    >)
        requires
            old(self).wf(),
        ensures
            final(self).wf(),
            final(self).config_name() == old(self).config_name(),
            final(self).outputs_in_use() == old(self).outputs_in_use(),
            r matches Ok(Some(input)) ==> input.entity_name() == name@ && final(self).inputs_in_use()
                == old(self).inputs_in_use().insert(name@) && !old(self).inputs_in_use().contains(name@),
            r matches Ok(None) ==> final(self).inputs_in_use() == old(self).inputs_in_use()
                && old(self).inputs_in_use().contains(name@) && behavior == BlockingBehavior::BlockForever,
            r is Err ==> final(self).inputs_in_use() == old(self).inputs_in_use(),
            final(self).native_api() == old(self).native_api(),
            !is_c_text(name@) ==> fails_on_string(r),
            is_c_text(name@) ==> exists|reply: Option<N::Reader>| #[trigger]
                old(self).native_api().reader_lookup(NativeCall::GetDataReader { entity: name@ }, reply) && (reply is None ==> (r matches Err(e)
                && is_not_found(e, name@))) && (reply is Some ==> acquired_as(
                r,
                old(self).inputs_in_use(),
                name@,
                behavior,
                "Input"@,
            )),
    {
        let lookup = self.native.get_input(name);
        if let Err(e) = lookup {
            proof {
                if is_c_text(name@) {
                    let reply = choose|reply: Option<N::Reader>| #[trigger]
                        self.native.inner().reader_lookup(NativeCall::GetDataReader { entity: name@ }, reply) && match reply {
                            Some(rd) => lookup matches Ok(i) && i.inner() == rd,
                            None => lookup matches Err(e) && is_not_found(e, name@),
                        };
                    assert(old(self).native_api().reader_lookup(NativeCall::GetDataReader { entity: name@ }, reply));
                }
            }
            return Err(e);
        }
        match self.inputs.acquire_entity(name, behavior, "Input") {
            Ok(true) => Ok(Some(Input::new(name))),
            Ok(false) => Ok(None),
            Err(e) => Err(e),
        }
    }

    /// Release the input named `name`, making it available again.
    pub fn release_input(&mut self, name: &str) -> (r: ConnectorFallible)
        requires
            old(self).wf(),
        ensures
            final(self).wf(),
            final(self).config_name() == old(self).config_name(),
            final(self).outputs_in_use() == old(self).outputs_in_use(),
            final(self).inputs_in_use() == release_step(old(self).inputs_in_use(), name@).0,
            final(self).native_api() == old(self).native_api(),
            release_step(old(self).inputs_in_use(), name@).1 ==> r is Ok,
            !release_step(old(self).inputs_in_use(), name@).1 ==> (r matches Err(e) && is_busy(
                e,
                not_owned_message("Input"@, name@),
            )),
    {
        self.inputs.release_entity(name, "Input")
    }

    /// Get the output named `name`, which must not be in use.
    pub fn get_output(&mut self, name: &str) -> (r: ConnectorResult<Output<N::Writer>>)
        requires
            old(self).wf(),
        ensures
            final(self).wf(),
            final(self).config_name() == old(self).config_name(),
            final(self).inputs_in_use() == old(self).inputs_in_use(),
            r matches Ok(output) ==> output.entity_name() == name@,
            r is Ok ==> final(self).outputs_in_use() == acquire_step(
                old(self).outputs_in_use(),
                name@,
                BlockingBehavior::NonBlocking,
            ).0 && !old(self).outputs_in_use().contains(name@),
            r is Err ==> final(self).outputs_in_use() == old(self).outputs_in_use(),
            final(self).native_api() == old(self).native_api(),
            !is_c_text(name@) ==> fails_on_string(r),
            is_c_text(name@) ==> exists|reply: Option<N::Writer>| #[trigger]
                old(self).native_api().writer_lookup(NativeCall::GetDataWriter { entity: name@ }, reply) && (reply is None ==> (r matches Err(e)
                && is_not_found(e, name@))) && (reply is Some && !old(self).outputs_in_use().contains(name@)
                ==> r is Ok) && (reply is Some && old(self).outputs_in_use().contains(name@) ==> (r matches Err(e)
                && is_busy(e, busy_message("Output"@, name@)))) && (reply matches Some(w) ==> (r matches Ok(o)
                ==> o.writer() == w)),
    {
        match self.acquire_output(name, BlockingBehavior::NonBlocking) {
            Ok(Some(output)) => Ok(output),
            Ok(None) => ErrorKind::entity_busy_error(message("Output", " '", name, "' already in use")).into_err(),
            Err(e) => Err(e),
        }
    }

    /// Get the output named `name`: `Some` when it was free and is now owned
    /// by the caller, `None` when it is in use and the caller must wait for its
    /// release and ask again.
    pub fn take_output(&mut self, name: &str) -> (r: ConnectorResult<Option<Output<N::Writer>>>)
        requires
            old(self).wf(),
        ensures
            final(self).wf(),
            final(self).config_name() == old(self).config_name(),
            final(self).inputs_in_use() == old(self).inputs_in_use(),
            r matches Ok(Some(output)) ==> output.entity_name() == name@ && final(self).outputs_in_use()
                == old(self).outputs_in_use().insert(name@) && !old(self).outputs_in_use().contains(name@),
            r matches Ok(None) ==> final(self).outputs_in_use() == old(self).outputs_in_use()
                && old(self).outputs_in_use().contains(name@),
            r is Err ==> final(self).outputs_in_use() == old(self).outputs_in_use(),
            final(self).native_api() == old(self).native_api(),
            !is_c_text(name@) ==> fails_on_string(r),
            is_c_text(name@) ==> exists|reply: Option<N::Writer>| #[trigger]
                old(self).native_api().writer_lookup(NativeCall::GetDataWriter { entity: name@ }, reply) && (reply is None ==> (r matches Err(e)
                && is_not_found(e, name@))) && (reply is Some && !old(self).outputs_in_use().contains(name@)
                ==> r matches Ok(Some(_))) && (reply is Some && old(self).outputs_in_use().contains(name@)
                ==> r matches Ok(None)) && (reply matches Some(w) ==> (r matches Ok(Some(o)) ==> o.writer()
                == w)),
    {
        self.acquire_output(name, BlockingBehavior::BlockForever)
    }

    fn acquire_output(&mut self, name: &str, behavior: BlockingBehavior) -> (r: ConnectorResult<
        Option<Output<N::Writer>>,
    >)
        requires
            old(self).wf(),
        ensures
            final(self).wf(),
            final(self).config_name() == old(self).config_name(),
            final(self).inputs_in_use() == old(self).inputs_in_use(),
            r matches Ok(Some(output)) ==> output.entity_name() == name@ && final(self).outputs_in_use()
                == old(self).outputs_in_use().insert(name@) && !old(self).outputs_in_use().contains(name@),
            r matches Ok(None) ==> final(self).outputs_in_use() == old(self).outputs_in_use()
                && old(self).outputs_in_use().contains(name@) && behavior == BlockingBehavior::BlockForever,
            r is Err ==> final(self).outputs_in_use() == old(self).outputs_in_use(),
            final(self).native_api() == old(self).native_api(),
            !is_c_text(name@) ==> fails_on_string(r),
            is_c_text(name@) ==> exists|reply: Option<N::Writer>| #[trigger]
                old(self).native_api().writer_lookup(NativeCall::GetDataWriter { entity: name@ }, reply) && (reply is None ==> (r matches Err(e)
                && is_not_found(e, name@))) && (reply is Some ==> acquired_as(
                r,
                old(self).outputs_in_use(),
                name@,
                behavior,
                "Output"@,
            )) && (reply matches Some(w) ==> (r matches Ok(Some(o)) ==> o.writer() == w)),
    {
        let lookup = self.native.get_output(name);
        let ghost looked_up = lookup;
        let writer = match lookup {
            Ok(w) => w,
            Err(e) => {
                proof {
                    if is_c_text(name@) {
                        let reply = choose|reply: Option<N::Writer>| #[trigger]
                            self.native.inner().writer_lookup(NativeCall::GetDataWriter { entity: name@ }, reply) && match reply {
                                Some(w) => looked_up matches Ok(o) && o.inner() == w,
                                None => looked_up matches Err(e) && is_not_found(e, name@),
                            };
                        assert(old(self).native_api().writer_lookup(NativeCall::GetDataWriter { entity: name@ }, reply));
                    }
                }
                return Err(e);
            },
        };
        match self.outputs.acquire_entity(name, behavior, "Output") {
            Ok(true) => Ok(Some(Output::new(name, writer))),
            Ok(false) => Ok(None),
            Err(e) => Err(e),
        }
    }

    /// Release the output named `name`, making it available again.
    pub fn release_output(&mut self, name: &str) -> (r: ConnectorFallible)
        requires
            old(self).wf(),
        ensures
            final(self).wf(),
            final(self).config_name() == old(self).config_name(),
            final(self).inputs_in_use() == old(self).inputs_in_use(),
            final(self).outputs_in_use() == release_step(old(self).outputs_in_use(), name@).0,
            final(self).native_api() == old(self).native_api(),
            release_step(old(self).outputs_in_use(), name@).1 ==> r is Ok,
            !release_step(old(self).outputs_in_use(), name@).1 ==> (r matches Err(e) && is_busy(
                e,
                not_owned_message("Output"@, name@),
            )),
    {
        self.outputs.release_entity(name, "Output")
    }
}

} // verus!
