//! The decisions of the native hook layer: what each runtime callback turns
//! into, if anything.
//!
//! The callbacks themselves are foreign entry points and live with the
//! caller. They resolve names through the runtime and hand them over as
//! text, `None` where the runtime gave nothing; what comes back is the
//! envelope to send, or `None` where the event is dropped.
//!
//! The filter is consulted first and the clock is read last, so an event of
//! no interest costs one lookup in the policy and nothing else.
//!
//! Timestamps are microseconds since the Unix epoch, read from the wall
//! clock. Nothing is kept between two callbacks: the policy is only read, so
//! callbacks on different threads need no lock, and the timestamps are as
//! steady as the clock they come from.

use vstd::prelude::*;
use crate::event::{AgentMessage, ClassLoadEvent, ClassLoadView, MessageView, MethodEvent, MethodView};
use crate::names::{normalize_class_name, qualified_name};
use crate::policy::{Config, ConfigView};

verus! {

/// The dotted name of the class that was loaded, if the runtime gave a class
/// descriptor and the policy lists the class.
pub open spec fn class_of_interest(policy: ConfigView, signature: Option<Seq<char>>) -> Option<
    Seq<char>,
> {
    match signature {
        None => None,
        Some(descriptor) => match qualified_name(descriptor) {
            None => None,
            Some(name) => if policy.wants_class(name) {
                Some(name)
            } else {
                None
            },
        },
    }
}

/// What a class-load callback at `timestamp` sends.
pub open spec fn class_load_envelope(
    policy: ConfigView,
    signature: Option<Seq<char>>,
    timestamp: i64,
) -> Option<MessageView> {
    match class_of_interest(policy, signature) {
        None => None,
        Some(name) => Some(MessageView::ClassLoad(ClassLoadView { timestamp, name })),
    }
}

/// The method's name and the dotted name of its declaring class, if the
/// policy lists the method and the runtime gave both names.
pub open spec fn method_of_interest(
    policy: ConfigView,
    name: Option<Seq<char>>,
    signature: Option<Seq<char>>,
) -> Option<(Seq<char>, Seq<char>)> {
    match name {
        None => None,
        Some(method) => if !policy.wants_method(method) {
            None
        } else {
            match signature {
                None => None,
                Some(descriptor) => match qualified_name(descriptor) {
                    None => None,
                    Some(class_name) => Some((method, class_name)),
                },
            }
        },
    }
}

/// What a method-entry callback at `timestamp` sends.
pub open spec fn method_entry_envelope(
    policy: ConfigView,
    name: Option<Seq<char>>,
    signature: Option<Seq<char>>,
    timestamp: i64,
) -> Option<MessageView> {
    match method_of_interest(policy, name, signature) {
        None => None,
        Some((name, class_name)) => Some(
            MessageView::MethodEvent(MethodView::Entry { timestamp, name, class_name }),
        ),
    }
}

/// What a method-exit callback at `timestamp` sends.
pub open spec fn method_exit_envelope(
    policy: ConfigView,
    name: Option<Seq<char>>,
    signature: Option<Seq<char>>,
    timestamp: i64,
) -> Option<MessageView> {
    match method_of_interest(policy, name, signature) {
        None => None,
        Some((name, class_name)) => Some(
            MessageView::MethodEvent(MethodView::Exit { timestamp, name, class_name }),
        ),
    }
}

/// Reads the wall clock in microseconds since the Unix epoch.
///
/// Stands for `chrono::Utc::now()` followed by `DateTime::timestamp_micros`.
/// The value depends on the machine's clock, so nothing is claimed of it but
/// its sign: `Utc::now` does not return for a clock set before the epoch.
#[verifier::external_body]
fn now_micros() -> (micros: i64)
    ensures
        micros >= 0,
{
    chrono::Utc::now().timestamp_micros()
}

/// Decides whether a loaded class is of interest, and under which name.
///
/// This is the whole cost of a class load that the policy does not list.
pub fn interesting_class(config: &Config, signature: Option<&str>) -> (name: Option<String>)
    ensures
        name.deep_view() == class_of_interest(config@, signature.deep_view()),
{
    match signature {
        None => None,
        Some(descriptor) => match normalize_class_name(descriptor) {
            None => None,
            Some(name) => if config.wants_class(name.as_str()) {
                Some(name)
            } else {
                None
            },
        },
    }
}

/// Decides whether a method event is of interest, and gives the method's
/// name and the dotted name of its declaring class.
fn interesting_method(config: &Config, name: Option<&str>, signature: Option<&str>) -> (found:
    Option<(String, String)>)
    ensures
        found.deep_view() == method_of_interest(
            config@,
            name.deep_view(),
            signature.deep_view(),
        ),
{
    match name {
        None => None,
        Some(method) => if !config.wants_method(method) {
            None
        } else {
            match signature {
                None => None,
                Some(descriptor) => match normalize_class_name(descriptor) {
                    None => None,
                    Some(class_name) => Some((String::from_str(method), class_name)),
                },
            }
        },
    }
}

/// The envelope for a class load observed at `timestamp`.
///
/// `signature` is the class descriptor as the runtime reports it, `None`
/// where it reports none. Nothing is sent for a class without a descriptor,
/// for a descriptor that names no class, or for a class the policy does not
/// list.
pub fn class_load_at(config: &Config, signature: Option<&str>, timestamp: i64) -> (msg: Option<
    AgentMessage,
>)
    ensures
        msg.deep_view() == class_load_envelope(config@, signature.deep_view(), timestamp),
{
    match interesting_class(config, signature) {
        None => None,
        Some(name) => Some(AgentMessage::ClassLoad(ClassLoadEvent { timestamp, name })),
    }
}

/// The envelope for a class load observed now.
///
/// Does what [`class_load_at`] does, with the time read from the clock, and
/// only once the class has passed the filter.
pub fn class_load(config: &Config, signature: Option<&str>) -> (msg: Option<AgentMessage>)
    ensures
        exists|timestamp: i64|
            timestamp >= 0 && msg.deep_view() == #[trigger] class_load_envelope(
                config@,
                signature.deep_view(),
                timestamp,
            ),
{
    match interesting_class(config, signature) {
        None => {
            assert(class_load_envelope(config@, signature.deep_view(), 0) is None);
            None
        },
        Some(name) => {
            let timestamp = now_micros();
            let msg = Some(AgentMessage::ClassLoad(ClassLoadEvent { timestamp, name }));
            assert(msg.deep_view() == class_load_envelope(
                config@,
                signature.deep_view(),
                timestamp,
            ));
            msg
        },
    }
}

/// The envelope for a method entry observed at `timestamp`.
///
/// `name` is the method's simple name and `signature` the descriptor of its
/// declaring class, each `None` where the runtime reports none. Nothing is
/// sent for a method the policy does not list, nor where either name is
/// missing or the descriptor names no class.
pub fn method_entry_at(
    config: &Config,
    name: Option<&str>,
    signature: Option<&str>,
    timestamp: i64,
) -> (msg: Option<AgentMessage>)
    ensures
        msg.deep_view() == method_entry_envelope(
            config@,
            name.deep_view(),
            signature.deep_view(),
            timestamp,
        ),
{
    match interesting_method(config, name, signature) {
        None => None,
        Some((name, class_name)) => Some(
            AgentMessage::MethodEvent(MethodEvent::Entry { timestamp, name, class_name }),
        ),
    }
}

/// The envelope for a method entry observed now.
///
/// Does what [`method_entry_at`] does, with the time read from the clock,
/// and only once the method has passed the filter.
pub fn method_entry(config: &Config, name: Option<&str>, signature: Option<&str>) -> (msg: Option<
    AgentMessage,
>)
    ensures
        exists|timestamp: i64|
            timestamp >= 0 && msg.deep_view() == #[trigger] method_entry_envelope(
                config@,
                name.deep_view(),
                signature.deep_view(),
                timestamp,
            ),
{
    match interesting_method(config, name, signature) {
        None => {
            assert(method_entry_envelope(config@, name.deep_view(), signature.deep_view(), 0)
                is None);
            None
        },
        Some((method, class_name)) => {
            let timestamp = now_micros();
            let msg = Some(
                AgentMessage::MethodEvent(
                    MethodEvent::Entry { timestamp, name: method, class_name },
                ),
            );
            assert(msg.deep_view() == method_entry_envelope(
                config@,
                name.deep_view(),
                signature.deep_view(),
                timestamp,
            ));
            msg
        },
    }
}

/// The envelope for a method exit observed at `timestamp`.
///
/// The rules are those of [`method_entry_at`].
pub fn method_exit_at(
    config: &Config,
    name: Option<&str>,
    signature: Option<&str>,
    timestamp: i64,
) -> (msg: Option<AgentMessage>)
    ensures
        msg.deep_view() == method_exit_envelope(
            config@,
            name.deep_view(),
            signature.deep_view(),
            timestamp,
        ),
{
    match interesting_method(config, name, signature) {
        None => None,
        Some((name, class_name)) => Some(
            AgentMessage::MethodEvent(MethodEvent::Exit { timestamp, name, class_name }),
        ),
    }
}

/// The envelope for a method exit observed now.
///
/// Does what [`method_exit_at`] does, with the time read from the clock,
/// and only once the method has passed the filter.
pub fn method_exit(config: &Config, name: Option<&str>, signature: Option<&str>) -> (msg: Option<
    AgentMessage,
>)
    ensures
        exists|timestamp: i64|
            timestamp >= 0 && msg.deep_view() == #[trigger] method_exit_envelope(
                config@,
                name.deep_view(),
                signature.deep_view(),
                timestamp,
            ),
{
    match interesting_method(config, name, signature) {
        None => {
            assert(method_exit_envelope(config@, name.deep_view(), signature.deep_view(), 0)
                is None);
            None
        },
        Some((method, class_name)) => {
            let timestamp = now_micros();
            let msg = Some(
                AgentMessage::MethodEvent(
                    MethodEvent::Exit { timestamp, name: method, class_name },
                ),
            );
            assert(msg.deep_view() == method_exit_envelope(
                config@,
                name.deep_view(),
                signature.deep_view(),
                timestamp,
            ));
            msg
        },
    }
}

/// The envelope that tells the observer the hook layer has attached. It is
/// the last thing attaching does.
pub fn agent_on_load() -> (msg: AgentMessage)
    ensures
        msg@ == MessageView::Load,
{
    AgentMessage::Load
}

/// The envelope that tells the observer the runtime has finished
/// bootstrapping. It is sent whatever the policy says.
pub fn vm_init() -> (msg: AgentMessage)
    ensures
        msg@ == MessageView::VmInit,
{
    AgentMessage::VmInit
}

/// The envelope that closes the session. It is sent whatever the policy says
/// and however far attaching got.
pub fn agent_on_unload() -> (msg: AgentMessage)
    ensures
        msg@ == MessageView::Unload,
{
    AgentMessage::Unload
}

/// No envelope is ever built for a class that the policy does not list:
/// whatever descriptor the runtime reports and whenever it does, a class-load
/// envelope never bears a name outside the policy's class names.
pub proof fn lemma_unlisted_class_is_never_reported(
    policy: ConfigView,
    name: Seq<char>,
    signature: Option<Seq<char>>,
    timestamp: i64,
)
    requires
        !policy.class_names().contains(name),
    ensures
        !(class_load_envelope(policy, signature, timestamp) matches Some(
            MessageView::ClassLoad(event),
        ) && event.name == name),
{
}

/// No envelope is ever built for a method that the policy does not list:
/// neither an entry nor an exit bears a method name outside the policy's
/// method names.
pub proof fn lemma_unlisted_method_is_never_reported(
    policy: ConfigView,
    name: Seq<char>,
    reported: Option<Seq<char>>,
    signature: Option<Seq<char>>,
    timestamp: i64,
)
    requires
        !policy.method_names().contains(name),
    ensures
        !(method_entry_envelope(policy, reported, signature, timestamp) matches Some(
            MessageView::MethodEvent(event),
        ) && event.name() == name),
        !(method_exit_envelope(policy, reported, signature, timestamp) matches Some(
            MessageView::MethodEvent(event),
        ) && event.name() == name),
{
}

} // verus!
