//! The event model: what the hook layer reports and the observer records.
//!
//! Every execution type here has a mathematical model (its view) with the
//! same shape, in which text is a `Seq<char>`. Contracts throughout the crate
//! speak of the models.

use vstd::prelude::*;

verus! {

/// A class was loaded.
#[derive(Debug, PartialEq, Eq)]
pub struct ClassLoadEvent {
    /// Microseconds since the Unix epoch, read on the producing side.
    pub timestamp: i64,
    /// The class in dotted form, `com.example.Foo`.
    pub name: String,
}

/// Model of a [`ClassLoadEvent`].
pub struct ClassLoadView {
    pub timestamp: i64,
    pub name: Seq<char>,
}

impl View for ClassLoadEvent {
    type V = ClassLoadView;

    open spec fn view(&self) -> ClassLoadView {
        ClassLoadView { timestamp: self.timestamp, name: self.name@ }
    }
}

impl DeepView for ClassLoadEvent {
    type V = ClassLoadView;

    open spec fn deep_view(&self) -> ClassLoadView {
        self@
    }
}

impl Clone for ClassLoadEvent {
    fn clone(&self) -> (copy: Self)
        ensures
            copy == *self,
    {
        ClassLoadEvent { timestamp: self.timestamp, name: self.name.clone() }
    }
}

/// A method was entered or left.
#[derive(Debug, PartialEq, Eq)]
pub enum MethodEvent {
    Entry {
        /// Microseconds since the Unix epoch, read on the producing side.
        timestamp: i64,
        /// The method's simple name.
        name: String,
        /// The declaring class in dotted form.
        class_name: String,
    },
    Exit {
        /// Microseconds since the Unix epoch, read on the producing side.
        timestamp: i64,
        /// The method's simple name.
        name: String,
        /// The declaring class in dotted form.
        class_name: String,
    },
}

/// Model of a [`MethodEvent`].
pub enum MethodView {
    Entry { timestamp: i64, name: Seq<char>, class_name: Seq<char> },
    Exit { timestamp: i64, name: Seq<char>, class_name: Seq<char> },
}

impl MethodView {
    /// When the method was entered or left.
    pub open spec fn timestamp(self) -> i64 {
        match self {
            MethodView::Entry { timestamp, .. } => timestamp,
            MethodView::Exit { timestamp, .. } => timestamp,
        }
    }

    /// The method's simple name.
    pub open spec fn name(self) -> Seq<char> {
        match self {
            MethodView::Entry { name, .. } => name,
            MethodView::Exit { name, .. } => name,
        }
    }

    /// The declaring class in dotted form.
    pub open spec fn class_name(self) -> Seq<char> {
        match self {
            MethodView::Entry { class_name, .. } => class_name,
            MethodView::Exit { class_name, .. } => class_name,
        }
    }
}

impl View for MethodEvent {
    type V = MethodView;

    open spec fn view(&self) -> MethodView {
        match self {
            MethodEvent::Entry { timestamp, name, class_name } => MethodView::Entry {
                timestamp: *timestamp,
                name: name@,
                class_name: class_name@,
            },
            MethodEvent::Exit { timestamp, name, class_name } => MethodView::Exit {
                timestamp: *timestamp,
                name: name@,
                class_name: class_name@,
            },
        }
    }
}

impl DeepView for MethodEvent {
    type V = MethodView;

    open spec fn deep_view(&self) -> MethodView {
        self@
    }
}

impl Clone for MethodEvent {
    fn clone(&self) -> (copy: Self)
        ensures
            copy == *self,
    {
        match self {
            MethodEvent::Entry { timestamp, name, class_name } => MethodEvent::Entry {
                timestamp: *timestamp,
                name: name.clone(),
                class_name: class_name.clone(),
            },
            MethodEvent::Exit { timestamp, name, class_name } => MethodEvent::Exit {
                timestamp: *timestamp,
                name: name.clone(),
                class_name: class_name.clone(),
            },
        }
    }
}

impl MethodEvent {
    /// When the method was entered or left.
    pub fn timestamp(&self) -> (t: i64)
        ensures
            t == self@.timestamp(),
    {
        match self {
            MethodEvent::Entry { timestamp, .. } => *timestamp,
            MethodEvent::Exit { timestamp, .. } => *timestamp,
        }
    }

    /// The method's simple name.
    pub fn name(&self) -> (n: &str)
        ensures
            n@ == self@.name(),
    {
        match self {
            MethodEvent::Entry { name, .. } => name.as_str(),
            MethodEvent::Exit { name, .. } => name.as_str(),
        }
    }

    /// The declaring class in dotted form.
    pub fn class_name(&self) -> (n: &str)
        ensures
            n@ == self@.class_name(),
    {
        match self {
            MethodEvent::Entry { class_name, .. } => class_name.as_str(),
            MethodEvent::Exit { class_name, .. } => class_name.as_str(),
        }
    }
}

/// One envelope on the way from the hook layer to the observer.
#[derive(Debug, PartialEq, Eq)]
pub enum AgentMessage {
    /// The hook layer has attached.
    Load,
    /// The runtime has finished bootstrapping.
    VmInit,
    /// The hook layer is going away: the last envelope of a session.
    Unload,
    /// A class of interest was loaded.
    ClassLoad(ClassLoadEvent),
    /// A method of interest was entered or left.
    MethodEvent(MethodEvent),
}

/// Model of an [`AgentMessage`].
pub enum MessageView {
    Load,
    VmInit,
    Unload,
    ClassLoad(ClassLoadView),
    MethodEvent(MethodView),
}

impl MessageView {
    /// Whether the observer keeps the envelope in its event log. `Load` and
    /// `Unload` only move the session's status.
    pub open spec fn is_logged(self) -> bool {
        !(self is Load) && !(self is Unload)
    }
}

impl View for AgentMessage {
    type V = MessageView;

    open spec fn view(&self) -> MessageView {
        match self {
            AgentMessage::Load => MessageView::Load,
            AgentMessage::VmInit => MessageView::VmInit,
            AgentMessage::Unload => MessageView::Unload,
            AgentMessage::ClassLoad(event) => MessageView::ClassLoad(event@),
            AgentMessage::MethodEvent(event) => MessageView::MethodEvent(event@),
        }
    }
}

impl DeepView for AgentMessage {
    type V = MessageView;

    open spec fn deep_view(&self) -> MessageView {
        self@
    }
}

impl Clone for AgentMessage {
    fn clone(&self) -> (copy: Self)
        ensures
            copy == *self,
    {
        match self {
            AgentMessage::Load => AgentMessage::Load,
            AgentMessage::VmInit => AgentMessage::VmInit,
            AgentMessage::Unload => AgentMessage::Unload,
            AgentMessage::ClassLoad(event) => AgentMessage::ClassLoad(event.clone()),
            AgentMessage::MethodEvent(event) => AgentMessage::MethodEvent(event.clone()),
        }
    }
}

impl AgentMessage {
    /// Whether this envelope closes the session.
    pub fn ends_session(&self) -> (last: bool)
        ensures
            last == (self@ is Unload),
    {
        match self {
            AgentMessage::Unload => true,
            _ => false,
        }
    }

    /// Whether the observer keeps this envelope in its event log.
    pub fn is_logged(&self) -> (kept: bool)
        ensures
            kept == self@.is_logged(),
    {
        match self {
            AgentMessage::Load => false,
            AgentMessage::Unload => false,
            _ => true,
        }
    }
}

} // verus!
