//! Diagnostic messages and the protocol's error envelope.
use vstd::prelude::*;

verus! {

/// How serious the condition behind a message is.
#[derive(Clone, Copy, Debug, PartialEq, Eq, Structural)]
pub enum Severity {
    OK,
    Warning,
    Critical,
}

/// A condition worth reporting to the caller, before it is rendered.
#[derive(Clone, Debug, PartialEq, Eq)]
pub struct DiagnosticMessage {
    pub id: String,
    pub severity: Severity,
    pub message: String,
    pub resolution: String,
    pub args: Vec<String>,
}

/// One rendered message, as it appears in the extended information of an
/// error.
#[derive(Clone, Debug, PartialEq, Eq)]
pub struct Message {
    pub message_id: String,
    pub message_severity: Option<Severity>,
    pub message: Option<String>,
    pub resolution: Option<String>,
    pub message_args: Vec<String>,
}

/// One rendered message, as it appears in an event.
#[derive(Clone, Debug, PartialEq, Eq)]
pub struct EventRecord {
    pub message_id: String,
    pub message_severity: Option<Severity>,
    pub message: Option<String>,
    pub message_args: Vec<String>,
}

/// The error envelope: a code and a text for the whole, and the messages in
/// full.
#[derive(Clone, Debug, PartialEq, Eq)]
pub struct Error {
    pub code: String,
    pub message: String,
    pub message_extended_info: Vec<Message>,
}

pub ghost struct DiagnosticMessageView {
    pub id: Seq<char>,
    pub severity: Severity,
    pub message: Seq<char>,
    pub resolution: Seq<char>,
    pub args: Seq<Seq<char>>,
}

pub ghost struct MessageView {
    pub message_id: Seq<char>,
    pub message_severity: Option<Severity>,
    pub message: Option<Seq<char>>,
    pub resolution: Option<Seq<char>>,
    pub message_args: Seq<Seq<char>>,
}

pub ghost struct EventRecordView {
    pub message_id: Seq<char>,
    pub message_severity: Option<Severity>,
    pub message: Option<Seq<char>>,
    pub message_args: Seq<Seq<char>>,
}

pub ghost struct ErrorView {
    pub code: Seq<char>,
    pub message: Seq<char>,
    pub message_extended_info: Seq<MessageView>,
}

/// The characters of an optional text.
pub open spec fn text_view(text: Option<String>) -> Option<Seq<char>> {
    match text {
        Some(t) => Some(t@),
        None => None,
    }
}

/// The characters of each text of a list.
pub open spec fn texts_view(texts: Seq<String>) -> Seq<Seq<char>> {
    Seq::new(texts.len(), |i: int| texts[i]@)
}

/// The view of each message of a list.
pub open spec fn messages_view(messages: Seq<Message>) -> Seq<MessageView> {
    Seq::new(messages.len(), |i: int| messages[i]@)
}

impl View for DiagnosticMessage {
    type V = DiagnosticMessageView;

    open spec fn view(&self) -> DiagnosticMessageView {
        DiagnosticMessageView {
            id: self.id@,
            severity: self.severity,
            message: self.message@,
            resolution: self.resolution@,
            args: texts_view(self.args@),
        }
    }
}

impl View for Message {
    type V = MessageView;

    open spec fn view(&self) -> MessageView {
        MessageView {
            message_id: self.message_id@,
            message_severity: self.message_severity,
            message: text_view(self.message),
            resolution: text_view(self.resolution),
            message_args: texts_view(self.message_args@),
        }
    }
}

impl View for EventRecord {
    type V = EventRecordView;

    open spec fn view(&self) -> EventRecordView {
        EventRecordView {
            message_id: self.message_id@,
            message_severity: self.message_severity,
            message: text_view(self.message),
            message_args: texts_view(self.message_args@),
        }
    }
}

impl View for Error {
    type V = ErrorView;

    open spec fn view(&self) -> ErrorView {
        ErrorView {
            code: self.code@,
            message: self.message@,
            message_extended_info: messages_view(self.message_extended_info@),
        }
    }
}

/// The message that renders a diagnostic: every part of it is present.
pub open spec fn rendered_message(diagnostic: DiagnosticMessageView) -> MessageView {
    MessageView {
        message_id: diagnostic.id,
        message_severity: Some(diagnostic.severity),
        message: Some(diagnostic.message),
        resolution: Some(diagnostic.resolution),
        message_args: diagnostic.args,
    }
}

/// The event record that renders a diagnostic; it carries no resolution.
pub open spec fn rendered_event(diagnostic: DiagnosticMessageView) -> EventRecordView {
    EventRecordView {
        message_id: diagnostic.id,
        message_severity: Some(diagnostic.severity),
        message: Some(diagnostic.message),
        message_args: diagnostic.args,
    }
}

/// The envelope around `first` and the messages after it: code and text are
/// those of `first` alone, an absent text counting as empty, and the extended
/// information holds all the messages in the order given.
pub open spec fn envelope(first: MessageView, rest: Seq<MessageView>) -> ErrorView {
    ErrorView {
        code: first.message_id,
        message: match first.message {
            Some(text) => text,
            None => Seq::empty(),
        },
        message_extended_info: seq![first] + rest,
    }
}

/// An envelope is never empty: it holds the first message, then the others in
/// their order, and takes its code and its text from the first alone.
pub proof fn envelope_mirrors_first(first: MessageView, rest: Seq<MessageView>)
    ensures
        envelope(first, rest).message_extended_info.len() == rest.len() + 1,
        envelope(first, rest).message_extended_info[0] == first,
        forall|i: int|
            0 <= i < rest.len() ==> #[trigger] envelope(first, rest).message_extended_info[i + 1]
                == rest[i],
        envelope(first, rest).code == first.message_id,
        first.message matches Some(text) ==> envelope(first, rest).message == text,
        first.message is None ==> envelope(first, rest).message.len() == 0,
{
}

/// Rendering into a message of the extended information.
pub trait IntoRedfishMessage {
    /// What the rendered message holds.
    spec fn redfish_message(self) -> MessageView where Self: Sized;

    fn into_redfish_message(self) -> (rendered: Message) where Self: Sized
        ensures
            rendered@ == self.redfish_message(),
    ;
}

/// Rendering into an event record.
pub trait IntoEventRecord {
    /// What the rendered record holds.
    spec fn event_record(self) -> EventRecordView where Self: Sized;

    fn into_event_record(self) -> (rendered: EventRecord) where Self: Sized
        ensures
            rendered@ == self.event_record(),
    ;
}

impl IntoRedfishMessage for DiagnosticMessage {
    open spec fn redfish_message(self) -> MessageView {
        rendered_message(self@)
    }

    fn into_redfish_message(self) -> (rendered: Message) {
        Message {
            message_id: self.id,
            message_severity: Some(self.severity),
            message: Some(self.message),
            resolution: Some(self.resolution),
            message_args: self.args,
        }
    }
}

impl IntoEventRecord for DiagnosticMessage {
    open spec fn event_record(self) -> EventRecordView {
        rendered_event(self@)
    }

    fn into_event_record(self) -> (rendered: EventRecord) {
        EventRecord {
            message_id: self.id,
            message_severity: Some(self.severity),
            message: Some(self.message),
            message_args: self.args,
        }
    }
}

/// The text of a message, or the empty text where it has none.
fn text_or_empty(message: &Message) -> (text: String)
    ensures
        text@ == envelope(message@, Seq::empty()).message,
{
    match &message.message {
        Some(text) => text.clone(),
        None => String::new(),
    }
}

/// Wraps a single message in an error envelope.
pub fn one_message(error: Message) -> (wire: Error)
    ensures
        wire@ == envelope(error@, Seq::empty()),
        wire@.message_extended_info.len() == 1,
{
    let message = text_or_empty(&error);
    let code = error.message_id.clone();
    let mut info: Vec<Message> = Vec::new();
    info.push(error);
    let wire = Error { code, message, message_extended_info: info };
    assert(wire@.message_extended_info =~= seq![error@] + Seq::<MessageView>::empty());
    wire
}

/// Wraps one or more messages in an error envelope: `first`, then `rest` in
/// its order.
pub fn many_messages(first: Message, rest: Vec<Message>) -> (wire: Error)
    ensures
        wire@ == envelope(first@, messages_view(rest@)),
        wire@.message_extended_info.len() == rest@.len() + 1,
{
    let message = text_or_empty(&first);
    let code = first.message_id.clone();
    let mut info = rest;
    info.insert(0, first);
    let wire = Error { code, message, message_extended_info: info };
    assert(wire@.message_extended_info =~= seq![first@] + messages_view(rest@));
    wire
}

} // verus!
