use vstd::prelude::*;
use vstd::std_specs::convert::FromSpecImpl;
use vstd::string::StringExecFns;
use super::data::Data;
use super::data::DataView;
use super::decimal::decimal;
use super::decimal::push_decimal;

verus! {

/// A processed routing record as mathematical values.
pub struct MessageStateView {
    pub content: Seq<char>,
    pub last_heard: Seq<char>,
    pub interval_ms: int,
    pub total_elapsed_ms: int,
    pub sender_id: int,
    pub recipient_id: int,
    pub last_sender_id: int,
}

/// The state that a record has before any worker memory is attached to it:
/// nothing heard, nobody heard from, and its own delay as the elapsed time.
pub open spec fn initial_state(data: DataView) -> MessageStateView {
    MessageStateView {
        content: data.message,
        last_heard: Seq::empty(),
        interval_ms: data.interval,
        total_elapsed_ms: data.interval,
        sender_id: data.worker,
        recipient_id: data.destination_worker,
        last_sender_id: 0,
    }
}

/// A snapshot of a processed routing record, enriched with what its sender
/// remembered at that moment.
#[derive(Debug)]
pub struct MessageState {
    pub state: MessageInfo,
    pub timing: TimingInfo,
    pub routing: RoutingInfo,
}

/// The text of a message and the text that its sender had last received.
#[derive(Debug)]
pub struct MessageInfo {
    pub content: String,
    pub last_heard: String,
}

/// The delay of a message and the delay accumulated up to and including it.
#[derive(Debug)]
pub struct TimingInfo {
    pub interval_ms: i64,
    pub total_elapsed_ms: i64,
}

/// Who sent a message, to whom, and from whom the sender had last heard.
#[derive(Debug)]
pub struct RoutingInfo {
    pub sender_id: i32,
    pub recipient_id: i32,
    pub last_sender_id: i32,
}

impl View for MessageState {
    type V = MessageStateView;

    open spec fn view(&self) -> MessageStateView {
        MessageStateView {
            content: self.state.content@,
            last_heard: self.state.last_heard@,
            interval_ms: self.timing.interval_ms as int,
            total_elapsed_ms: self.timing.total_elapsed_ms as int,
            sender_id: self.routing.sender_id as int,
            recipient_id: self.routing.recipient_id as int,
            last_sender_id: self.routing.last_sender_id as int,
        }
    }
}

/// The views of the states, in order.
pub open spec fn states_view(states: Seq<MessageState>) -> Seq<MessageStateView> {
    Seq::new(states.len(), |j: int| states[j]@)
}

/// The lines that are always shown of a state: the sender, the worker
/// that the sender had last heard from, the message and the message that
/// the sender had last heard, the two messages in double quotes.
pub open spec fn brief_text(state: MessageStateView) -> Seq<char> {
    "worker: "@ + decimal(state.sender_id) + "\n"@
        + "worker_listened: "@ + decimal(state.last_sender_id) + "\n"@
        + "message: \""@ + state.content + "\"\n"@
        + "message_listened: \""@ + state.last_heard + "\"\n"@
}

/// The lines that are shown of a state only on request: its delay, the
/// delay accumulated with it, and its destination.
pub open spec fn verbose_text(state: MessageStateView) -> Seq<char> {
    "interval: "@ + decimal(state.interval_ms) + " ms\n"@
        + "accumulated_time: "@ + decimal(state.total_elapsed_ms) + " ms\n"@
        + "destination_worker: "@ + decimal(state.recipient_id) + "\n"@
}

/// The text in which a state is shown: the brief lines, then the verbose
/// lines if they are asked for, then an empty line.
pub open spec fn display_text(state: MessageStateView, verbose: bool) -> Seq<char> {
    if verbose {
        brief_text(state) + verbose_text(state) + "\n"@
    } else {
        brief_text(state) + "\n"@
    }
}

/// The texts of the states one after the other, in order.
pub open spec fn transcript(states: Seq<MessageStateView>, verbose: bool) -> Seq<char>
    decreases states.len(),
{
    if states.len() == 0 {
        Seq::empty()
    } else {
        transcript(states.drop_last(), verbose) + display_text(states.last(), verbose)
    }
}

impl From<Data> for MessageState {
    /// Turns a raw record into its initial message state.
    fn from(data: Data) -> (state: MessageState)
        ensures
            state@ == initial_state(data@),
    {
        MessageState {
            state: MessageInfo { content: data.message, last_heard: String::new() },
            timing: TimingInfo { interval_ms: data.interval, total_elapsed_ms: data.interval },
            routing: RoutingInfo {
                sender_id: data.worker,
                recipient_id: data.destination_worker,
                last_sender_id: 0,
            },
        }
    }
}

impl FromSpecImpl<Data> for MessageState {
    /// Strings are compared by what they hold, so the conversion is stated
    /// over views, in the contract of `from`, and not as an equation between
    /// values.
    open spec fn obeys_from_spec() -> bool {
        false
    }

    open spec fn from_spec(data: Data) -> MessageState {
        choose|state: MessageState| state@ == initial_state(data@)
    }
}

impl MessageState {
    /// This state, ready to be shown, with or without the verbose lines.
    pub fn display<'a>(&'a self, verbose: bool) -> (shown: MessageDisplay<'a>)
        ensures
            shown.text() == display_text(self@, verbose),
    {
        MessageDisplay { message: self, verbose }
    }
}

/// A state together with the choice of how much of it to show.
pub struct MessageDisplay<'a> {
    message: &'a MessageState,
    verbose: bool,
}

impl<'a> MessageDisplay<'a> {
    /// The text that showing this state produces.
    pub closed spec fn text(&self) -> Seq<char> {
        display_text(self.message@, self.verbose)
    }

    /// Formats the state.
    pub fn to_string(&self) -> (text: String)
        ensures
            text@ == self.text(),
    {
        let mut text = String::new();
        text.append("worker: ");
        push_decimal(&mut text, self.message.routing.sender_id as i64);
        text.append("\n");
        text.append("worker_listened: ");
        push_decimal(&mut text, self.message.routing.last_sender_id as i64);
        text.append("\n");
        text.append("message: \"");
        text.append(self.message.state.content.as_str());
        text.append("\"\n");
        text.append("message_listened: \"");
        text.append(self.message.state.last_heard.as_str());
        text.append("\"\n");
        assert(text@ =~= brief_text(self.message@));
        if self.verbose {
            text.append("interval: ");
            push_decimal(&mut text, self.message.timing.interval_ms);
            text.append(" ms\n");
            text.append("accumulated_time: ");
            push_decimal(&mut text, self.message.timing.total_elapsed_ms);
            text.append(" ms\n");
            text.append("destination_worker: ");
            push_decimal(&mut text, self.message.routing.recipient_id as i64);
            text.append("\n");
            assert(text@ =~= brief_text(self.message@) + verbose_text(self.message@));
        }
        text.append("\n");
        assert(text@ =~= self.text());
        text
    }
}

/// Formats the states one after the other, in order.
pub fn render_messages(messages: &Vec<MessageState>, verbose: bool) -> (text: String)
    ensures
        text@ == transcript(states_view(messages@), verbose),
{
    let mut text = String::new();
    let mut done: usize = 0;
    while done < messages.len()
        invariant
            done <= messages.len(),
            text@ == transcript(states_view(messages@).take(done as int), verbose),
        decreases messages.len() - done,
    {
        let shown = messages[done].display(verbose).to_string();
        text.append(shown.as_str());
        proof {
            let states = states_view(messages@);
            assert(states.take(done + 1).drop_last() =~= states.take(done as int));
            assert(states.take(done + 1).last() == messages[done as int]@);
        }
        done = done + 1;
    }
    assert(states_view(messages@).take(done as int) =~= states_view(messages@));
    text
}

} // verus!
