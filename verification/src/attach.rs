//! Attaching the hook layer: the argument it is loaded with, and the order in
//! which it connects and registers with the runtime.
//!
//! The argument is one string, `<rendezvous-address>[,<config-path>]`. The
//! observer composes it when it launches the monitored program; the hook
//! layer takes it apart when the runtime loads it.

use vstd::prelude::*;
use vstd::std_specs::iter::IteratorSpec;
use crate::policy::Config;
use crate::text::push_char;

verus! {

broadcast use vstd::string::group_string_axioms;

/// How many characters stand before the first comma of `text`; all of them
/// where it holds no comma.
pub open spec fn field_len(text: Seq<char>) -> nat
    decreases text.len(),
{
    if text.len() == 0 || text[0] == ',' {
        0
    } else {
        1 + field_len(text.drop_first())
    }
}

/// The text up to its first comma.
pub open spec fn first_field(text: Seq<char>) -> Seq<char> {
    text.take(field_len(text) as int)
}

/// The text behind its first comma, if it holds one.
pub open spec fn after_first_field(text: Seq<char>) -> Option<Seq<char>> {
    if field_len(text) < text.len() {
        Some(text.skip(field_len(text) as int + 1))
    } else {
        None
    }
}

/// What the hook layer is loaded with.
#[derive(Debug, PartialEq, Eq)]
pub struct AttachArgument {
    /// Where to reach the observer.
    pub server_name: String,
    /// Where the filter policy is kept, if the argument names a place.
    pub config_path: Option<String>,
}

/// Model of an [`AttachArgument`].
pub struct AttachArgumentView {
    pub server_name: Seq<char>,
    pub config_path: Option<Seq<char>>,
}

impl View for AttachArgument {
    type V = AttachArgumentView;

    open spec fn view(&self) -> AttachArgumentView {
        AttachArgumentView {
            server_name: self.server_name@,
            config_path: self.config_path.deep_view(),
        }
    }
}

impl DeepView for AttachArgument {
    type V = AttachArgumentView;

    open spec fn deep_view(&self) -> AttachArgumentView {
        self@
    }
}

/// The parts of an attach argument: the address is the first field, the path
/// the second, and what follows a second comma is not read.
pub open spec fn attach_argument_of(options: Seq<char>) -> AttachArgumentView {
    AttachArgumentView {
        server_name: first_field(options),
        config_path: match after_first_field(options) {
            None => None,
            Some(rest) => Some(first_field(rest)),
        },
    }
}

/// The argument that carries an address and a path.
pub open spec fn composed_argument(server_name: Seq<char>, config_path: Seq<char>) -> Seq<char> {
    server_name + seq![','] + config_path
}

/// A field never reaches past the end of its text.
pub proof fn lemma_field_len_bound(text: Seq<char>)
    ensures
        field_len(text) <= text.len(),
    decreases text.len(),
{
    if text.len() > 0 && text[0] != ',' {
        lemma_field_len_bound(text.drop_first());
    }
}

/// The first field is the longest prefix free of commas: it holds none, and
/// it ends at a comma or at the end of the text.
pub proof fn lemma_first_field_is_comma_free(text: Seq<char>)
    ensures
        !first_field(text).contains(','),
        field_len(text) < text.len() ==> text[field_len(text) as int] == ',',
    decreases text.len(),
{
    lemma_field_len_bound(text);
    if text.len() > 0 && text[0] != ',' {
        let tail = text.drop_first();
        lemma_first_field_is_comma_free(tail);
        lemma_field_len_bound(tail);
        let field = first_field(text);
        assert forall|i: int| 0 <= i < field.len() implies field[i] != ',' by {
            if i > 0 {
                assert(first_field(tail)[i - 1] == field[i]);
                assert(first_field(tail).contains(field[i]));
            }
        }
    }
}

/// Text free of commas, followed by a comma, is a first field.
proof fn lemma_field_len_of_prefix(head: Seq<char>, tail: Seq<char>)
    requires
        !head.contains(','),
        tail.len() == 0 || tail[0] == ',',
    ensures
        field_len(head + tail) == head.len(),
    decreases head.len(),
{
    let text = head + tail;
    if head.len() == 0 {
        assert(text =~= tail);
    } else {
        assert(head.contains(head[0]));
        assert(text[0] == head[0]);
        assert(text.drop_first() =~= head.drop_first() + tail);
        assert forall|i: int| 0 <= i < head.drop_first().len() implies head.drop_first()[i]
            != ',' by {
            assert(head.contains(head[i + 1]));
        }
        lemma_field_len_of_prefix(head.drop_first(), tail);
    }
}

/// Taking apart what was composed gives the parts back, for an address and
/// a path that hold no comma.
pub proof fn lemma_attach_argument_round_trip(server_name: Seq<char>, config_path: Seq<char>)
    requires
        !server_name.contains(','),
        !config_path.contains(','),
    ensures
        attach_argument_of(composed_argument(server_name, config_path)) == (AttachArgumentView {
            server_name,
            config_path: Some(config_path),
        }),
{
    let text = composed_argument(server_name, config_path);
    let tail = seq![','] + config_path;
    assert(text =~= server_name + tail);
    lemma_field_len_of_prefix(server_name, tail);
    assert(first_field(text) =~= server_name);
    let rest = text.skip(field_len(text) as int + 1);
    assert(rest =~= config_path);
    assert(config_path =~= config_path + Seq::<char>::empty());
    lemma_field_len_of_prefix(config_path, Seq::empty());
    assert(first_field(config_path) =~= config_path);
}

/// Takes the attach argument apart.
///
/// Every string is an argument: one without a comma is an address alone, and
/// an empty field is an empty name.
pub fn parse_attach_argument(options: &str) -> (parsed: AttachArgument)
    ensures
        parsed@ == attach_argument_of(options@),
{
    let ghost text = options@;
    let mut server_name = String::new();
    let mut path = String::new();
    let mut commas: u8 = 0;
    let mut chars = options.chars();
    let ghost mut read: int = 0;
    proof {
        assert(text.skip(0) =~= text);
        lemma_field_len_bound(text);
    }
    loop
        invariant_except_break
            chars.obeys_prophetic_iter_laws(),
            0 <= read <= text.len(),
            chars.remaining() == text.skip(read),
            commas <= 1,
            commas == 0 ==> {
                &&& server_name@ == text.take(read)
                &&& path@.len() == 0
                &&& field_len(text) == read + field_len(text.skip(read))
            },
            commas == 1 ==> {
                let rest = text.skip(field_len(text) as int + 1);
                let seen = read - field_len(text) - 1;
                &&& field_len(text) < read
                &&& server_name@ == first_field(text)
                &&& path@ == rest.take(seen)
                &&& field_len(rest) == seen + field_len(rest.skip(seen))
            },
        ensures
            server_name@ == first_field(text),
            commas == 0 <==> after_first_field(text) is None,
            after_first_field(text) matches Some(rest) ==> path@ == first_field(rest),
        decreases text.len() - read,
    {
        let ghost upcoming = text.skip(read);
        match chars.next() {
            None => {
                proof {
                    assert(upcoming.len() == 0);
                    if commas == 0 {
                        assert(text.take(read) =~= first_field(text));
                    } else {
                        let rest = text.skip(field_len(text) as int + 1);
                        let seen = read - field_len(text) - 1;
                        assert(rest.skip(seen).len() == 0);
                        assert(rest.take(seen) =~= first_field(rest));
                    }
                }
                break;
            },
            Some(c) => {
                proof {
                    assert(upcoming.len() > 0);
                    assert(c == text[read]);
                    assert(upcoming.drop_first() =~= text.skip(read + 1));
                }
                if c == ',' {
                    if commas == 0 {
                        proof {
                            assert(field_len(upcoming) == 0);
                            let rest = text.skip(field_len(text) as int + 1);
                            assert(rest.take(0) =~= Seq::<char>::empty());
                            assert(rest.skip(0) =~= rest);
                            read = read + 1;
                        }
                        commas = 1;
                    } else {
                        proof {
                            let rest = text.skip(field_len(text) as int + 1);
                            let seen = read - field_len(text) - 1;
                            assert(rest.skip(seen) =~= upcoming);
                            assert(field_len(rest.skip(seen)) == 0);
                            assert(rest.take(seen) =~= first_field(rest));
                        }
                        break;
                    }
                } else {
                    if commas == 0 {
                        push_char(&mut server_name, c);
                        proof {
                            assert(text.take(read + 1) =~= text.take(read).push(c));
                            read = read + 1;
                        }
                    } else {
                        push_char(&mut path, c);
                        proof {
                            let rest = text.skip(field_len(text) as int + 1);
                            let seen = read - field_len(text) - 1;
                            assert(rest.skip(seen) =~= upcoming);
                            assert(rest.skip(seen).drop_first() =~= rest.skip(seen + 1));
                            assert(rest.take(seen + 1) =~= rest.take(seen).push(c));
                            read = read + 1;
                        }
                    }
                }
            },
        }
    }
    let config_path = if commas == 0 {
        None
    } else {
        Some(path)
    };
    AttachArgument { server_name, config_path }
}

/// Composes the attach argument from the observer's address and the place of
/// the filter policy.
pub fn attach_argument(server_name: &str, config_path: &str) -> (argument: String)
    ensures
        argument@ == composed_argument(server_name@, config_path@),
{
    let mut argument = String::from_str(server_name);
    push_char(&mut argument, ',');
    argument.append(config_path);
    argument
}

/// An event kind that the hook layer asks the runtime to deliver.
#[derive(Debug, Clone, Copy, PartialEq, Eq, Structural)]
pub enum HookEvent {
    VmInit,
    ClassLoad,
    MethodEntry,
    MethodExit,
}

/// One thing to do while attaching.
#[derive(Debug, Clone, Copy, PartialEq, Eq, Structural)]
pub enum AttachAction {
    /// Connect to the observer's rendezvous address.
    Connect,
    /// Obtain the runtime's instrumentation environment.
    AcquireEnvironment,
    /// Hand the runtime the callbacks.
    InstallCallbacks,
    /// Ask for the capability to see method entries and exits.
    RequestMethodEvents,
    /// Switch on delivery of one event kind.
    Enable(HookEvent),
    /// Tell the observer that the hook layer is attached.
    Announce,
}

/// What to do while attaching, in order. The connection comes before any
/// registration, and method events are asked for only where the policy lists
/// a method: intercepting every call is paid for only when it was ordered.
pub open spec fn attach_plan_of(traces_methods: bool) -> Seq<AttachAction> {
    if traces_methods {
        seq![
            AttachAction::Connect,
            AttachAction::AcquireEnvironment,
            AttachAction::InstallCallbacks,
            AttachAction::RequestMethodEvents,
            AttachAction::Enable(HookEvent::VmInit),
            AttachAction::Enable(HookEvent::ClassLoad),
            AttachAction::Enable(HookEvent::MethodEntry),
            AttachAction::Enable(HookEvent::MethodExit),
            AttachAction::Announce,
        ]
    } else {
        seq![
            AttachAction::Connect,
            AttachAction::AcquireEnvironment,
            AttachAction::InstallCallbacks,
            AttachAction::Enable(HookEvent::VmInit),
            AttachAction::Enable(HookEvent::ClassLoad),
            AttachAction::Announce,
        ]
    }
}

/// The actions to take while attaching under `config`, in order.
pub fn attach_plan(config: &Config) -> (plan: Vec<AttachAction>)
    ensures
        plan@ == attach_plan_of(config@.traces_methods()),
{
    let mut plan: Vec<AttachAction> = Vec::new();
    plan.push(AttachAction::Connect);
    plan.push(AttachAction::AcquireEnvironment);
    plan.push(AttachAction::InstallCallbacks);
    if config.traces_methods() {
        plan.push(AttachAction::RequestMethodEvents);
    }
    plan.push(AttachAction::Enable(HookEvent::VmInit));
    plan.push(AttachAction::Enable(HookEvent::ClassLoad));
    if config.traces_methods() {
        plan.push(AttachAction::Enable(HookEvent::MethodEntry));
        plan.push(AttachAction::Enable(HookEvent::MethodExit));
    }
    plan.push(AttachAction::Announce);
    assert(plan@ =~= attach_plan_of(config@.traces_methods()));
    plan
}

/// Where attaching goes next.
#[derive(Debug, Clone, Copy, PartialEq, Eq, Structural)]
pub enum AttachStep {
    /// Take this action and report how it went.
    Perform(AttachAction),
    /// Every action succeeded.
    Attached,
    /// An action failed. Attaching is given up: nothing further is
    /// registered, and the hook layer does not run half attached.
    Abort,
}

/// The step that follows `completed` successful actions, the last action
/// tried having failed or not.
pub open spec fn attach_step_of(traces_methods: bool, completed: nat, failed: bool) -> AttachStep {
    let plan = attach_plan_of(traces_methods);
    if failed {
        AttachStep::Abort
    } else if completed < plan.len() {
        AttachStep::Perform(plan[completed as int])
    } else {
        AttachStep::Attached
    }
}

/// Decides what attaching does next.
///
/// `completed` counts the actions that succeeded so far; `failed` says that
/// the action tried last did not.
pub fn next_attach_step(config: &Config, completed: usize, failed: bool) -> (step: AttachStep)
    ensures
        step == attach_step_of(config@.traces_methods(), completed as nat, failed),
{
    if failed {
        return AttachStep::Abort;
    }
    let plan = attach_plan(config);
    if completed < plan.len() {
        AttachStep::Perform(plan[completed])
    } else {
        AttachStep::Attached
    }
}

/// Nothing is registered with the runtime before the connection stands: the
/// plan opens with the connection, and no later step repeats it.
pub proof fn lemma_connection_comes_first(traces_methods: bool)
    ensures
        attach_plan_of(traces_methods)[0] == AttachAction::Connect,
        forall|i: int|
            0 < i < attach_plan_of(traces_methods).len() ==> attach_plan_of(traces_methods)[i]
                != AttachAction::Connect,
{
}

/// Runtime initialization and class loads are always asked for; method
/// entries and exits exactly when the policy lists a method.
pub proof fn lemma_events_asked_for(traces_methods: bool)
    ensures
        attach_plan_of(traces_methods).contains(AttachAction::Enable(HookEvent::VmInit)),
        attach_plan_of(traces_methods).contains(AttachAction::Enable(HookEvent::ClassLoad)),
        attach_plan_of(traces_methods).contains(AttachAction::Enable(HookEvent::MethodEntry))
            <==> traces_methods,
        attach_plan_of(traces_methods).contains(AttachAction::Enable(HookEvent::MethodExit))
            <==> traces_methods,
        attach_plan_of(traces_methods).contains(AttachAction::RequestMethodEvents)
            <==> traces_methods,
{
    let plan = attach_plan_of(traces_methods);
    if traces_methods {
        assert(plan[3] == AttachAction::RequestMethodEvents);
        assert(plan[4] == AttachAction::Enable(HookEvent::VmInit));
        assert(plan[5] == AttachAction::Enable(HookEvent::ClassLoad));
        assert(plan[6] == AttachAction::Enable(HookEvent::MethodEntry));
        assert(plan[7] == AttachAction::Enable(HookEvent::MethodExit));
    } else {
        assert(plan[3] == AttachAction::Enable(HookEvent::VmInit));
        assert(plan[4] == AttachAction::Enable(HookEvent::ClassLoad));
    }
}

} // verus!
