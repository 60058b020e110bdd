//! One prompt session: from the dispatch of the message, through the
//! correlation of interaction events with it, to the recorded outcome.
//!
//! The session decides and the caller acts: `Session::step` takes what
//! happened and answers with what to do next.
use crate::error::{decode_prefix, no_interaction_text, PromptError};
use crate::ident::button_id;
use crate::keyboard::{
    decoded, has_button, is_first_button, keyboard_rows, lemma_decode_button_id, renders, Button,
    Keyboard,
};
use vstd::prelude::*;

verus! {

/// Where a session stands.
#[derive(Clone, Copy, Debug, PartialEq, Eq, Structural)]
pub enum Phase {
    /// Nothing has been sent yet.
    Init,
    /// The message is out; no event stream is open yet.
    Sent,
    /// Events are being read.
    Listening,
    /// An interaction with the sent message was decoded.
    Matched,
    /// The session failed; the outcome holds the reason.
    Failed,
    /// The outcome is recorded and the connection was told to close.
    Stopped,
}

/// How a session ended.
#[derive(Clone, Debug, PartialEq, Eq)]
pub enum Outcome {
    /// The label of the button that was chosen.
    Selected(String),
    /// Why no label could be delivered.
    Failed(String),
}

/// An `Outcome` as plain text.
pub enum OutcomeView {
    Selected(Seq<char>),
    Failed(Seq<char>),
}

impl View for Outcome {
    type V = OutcomeView;

    open spec fn view(&self) -> OutcomeView {
        match self {
            Outcome::Selected(label) => OutcomeView::Selected(label@),
            Outcome::Failed(reason) => OutcomeView::Failed(reason@),
        }
    }
}

/// What the caller reports to the session.
#[derive(Debug, PartialEq, Eq)]
pub enum Event {
    /// The backend accepted the message and named it.
    Dispatched { message_id: i128 },
    /// The backend refused the message.
    SendFailed(String),
    /// The event stream is open.
    Opened,
    /// The event stream could not be opened, or broke off.
    ListenFailed(String),
    /// A button was activated on some message in some chat.
    Interaction { chat_id: i128, message_id: i128, custom_id: String },
    /// Any event that is no interaction.
    Other,
    /// The event stream ended.
    StreamEnded,
    /// The answered message was edited.
    Edited,
    /// The edit of the answered message failed.
    EditFailed(String),
}

/// An `Event` as plain values.
pub enum EventView {
    Dispatched { message_id: i128 },
    SendFailed(Seq<char>),
    Opened,
    ListenFailed(Seq<char>),
    Interaction { chat_id: i128, message_id: i128, custom_id: Seq<char> },
    Other,
    StreamEnded,
    Edited,
    EditFailed(Seq<char>),
}

impl View for Event {
    type V = EventView;

    open spec fn view(&self) -> EventView {
        match self {
            Event::Dispatched { message_id } => EventView::Dispatched { message_id: *message_id },
            Event::SendFailed(words) => EventView::SendFailed(words@),
            Event::Opened => EventView::Opened,
            Event::ListenFailed(words) => EventView::ListenFailed(words@),
            Event::Interaction { chat_id, message_id, custom_id } => EventView::Interaction {
                chat_id: *chat_id,
                message_id: *message_id,
                custom_id: custom_id@,
            },
            Event::Other => EventView::Other,
            Event::StreamEnded => EventView::StreamEnded,
            Event::Edited => EventView::Edited,
            Event::EditFailed(words) => EventView::EditFailed(words@),
        }
    }
}

impl Event {
    /// A second event that says the same.
    pub fn duplicate(&self) -> (copy: Event)
        ensures
            copy@ == self@,
    {
        match self {
            Event::Dispatched { message_id } => Event::Dispatched { message_id: *message_id },
            Event::SendFailed(words) => Event::SendFailed(words.clone()),
            Event::Opened => Event::Opened,
            Event::ListenFailed(words) => Event::ListenFailed(words.clone()),
            Event::Interaction { chat_id, message_id, custom_id } => Event::Interaction {
                chat_id: *chat_id,
                message_id: *message_id,
                custom_id: custom_id.clone(),
            },
            Event::Other => Event::Other,
            Event::StreamEnded => Event::StreamEnded,
            Event::Edited => Event::Edited,
            Event::EditFailed(words) => Event::EditFailed(words.clone()),
        }
    }
}

/// A run of events as plain values.
pub open spec fn event_views(events: Seq<Event>) -> Seq<EventView> {
    Seq::new(events.len(), |i: int| events[i]@)
}

/// What the session asks its caller to do next.
#[derive(Debug, PartialEq, Eq)]
pub enum Action {
    /// Send the prompt and report `Dispatched` or `SendFailed`.
    Send,
    /// Open the event stream and report `Opened` or `ListenFailed`.
    OpenStream,
    /// Wait for the next event of the stream and report it.
    Await,
    /// Show the chosen label on the sent message and report `Edited` or `EditFailed`.
    Edit(String),
    /// Call `Session::stop`.
    Stop,
    /// Nothing is left to do.
    Nothing,
}

/// An `Action` as plain values.
pub enum ActionView {
    Send,
    OpenStream,
    Await,
    Edit(Seq<char>),
    Stop,
    Nothing,
}

impl View for Action {
    type V = ActionView;

    open spec fn view(&self) -> ActionView {
        match self {
            Action::Send => ActionView::Send,
            Action::OpenStream => ActionView::OpenStream,
            Action::Await => ActionView::Await,
            Action::Edit(label) => ActionView::Edit(label@),
            Action::Stop => ActionView::Stop,
            Action::Nothing => ActionView::Nothing,
        }
    }
}

/// A session as plain values.
pub struct SessionView {
    pub phase: Phase,
    pub chat_id: i128,
    pub message_id: Option<i128>,
    pub text: Seq<char>,
    pub keyboard: Seq<Seq<Seq<char>>>,
    pub outcome: Option<OutcomeView>,
}

/// Whether an interaction in `chat_id` on `message_id` answers the message
/// that session `s` sent: both identifiers must be the session's own.
pub open spec fn correlates(s: SessionView, chat_id: i128, message_id: i128) -> bool {
    s.chat_id == chat_id && s.message_id == Some(message_id)
}

/// Session `s` after it failed for `reason`.
pub open spec fn failed(s: SessionView, reason: Seq<char>) -> (SessionView, ActionView) {
    (
        SessionView { phase: Phase::Failed, outcome: Some(OutcomeView::Failed(reason)), ..s },
        ActionView::Stop,
    )
}

/// What a phase is waiting for when an event arrives that it has no use for.
pub open spec fn pending(phase: Phase) -> ActionView {
    match phase {
        Phase::Init => ActionView::Send,
        Phase::Sent => ActionView::OpenStream,
        Phase::Listening => ActionView::Await,
        Phase::Matched => ActionView::Stop,
        Phase::Failed => ActionView::Stop,
        Phase::Stopped => ActionView::Nothing,
    }
}

/// The transition of the session: the state after event `e` in state `s`,
/// and what the caller is to do next.
pub open spec fn next(s: SessionView, e: EventView) -> (SessionView, ActionView) {
    match (s.phase, e) {
        (Phase::Init, EventView::Dispatched { message_id }) => (
            SessionView { phase: Phase::Sent, message_id: Some(message_id), ..s },
            ActionView::OpenStream,
        ),
        (Phase::Init, EventView::SendFailed(words)) => failed(s, words),
        (Phase::Sent, EventView::Opened) => (
            SessionView { phase: Phase::Listening, ..s },
            ActionView::Await,
        ),
        (Phase::Sent, EventView::ListenFailed(words)) => failed(s, words),
        (Phase::Listening, EventView::ListenFailed(words)) => failed(s, words),
        (Phase::Listening, EventView::StreamEnded) => failed(s, no_interaction_text()),
        (Phase::Listening, EventView::Interaction { chat_id, message_id, custom_id }) => {
            if correlates(s, chat_id, message_id) {
                match decoded(s.keyboard, custom_id) {
                    Some(label) => (
                        SessionView {
                            phase: Phase::Matched,
                            outcome: Some(OutcomeView::Selected(label)),
                            ..s
                        },
                        ActionView::Edit(label),
                    ),
                    None => failed(s, decode_prefix() + custom_id),
                }
            } else {
                (s, ActionView::Await)
            }
        },
        (Phase::Matched, EventView::EditFailed(words)) => failed(s, words),
        _ => (s, pending(s.phase)),
    }
}

/// Session `s` after `stop`: a matched or failed session is stopped and keeps
/// its outcome; any other is left as it is.
pub open spec fn stopped(s: SessionView) -> SessionView {
    if s.phase == Phase::Matched || s.phase == Phase::Failed {
        SessionView { phase: Phase::Stopped, ..s }
    } else {
        s
    }
}

/// What holds of every session, whatever has happened to it: an outcome
/// exists from the match or the failure on and not before, it is a label
/// after a match and a reason after a failure, and the sent message is known
/// while events are read.
pub open spec fn consistent(s: SessionView) -> bool {
    &&& (s.phase == Phase::Init || s.phase == Phase::Sent || s.phase == Phase::Listening)
        <==> s.outcome is None
    &&& s.phase == Phase::Matched ==> s.outcome is Some && s.outcome->0 is Selected
    &&& s.phase == Phase::Failed ==> s.outcome is Some && s.outcome->0 is Failed
    &&& (s.phase == Phase::Sent || s.phase == Phase::Listening || s.phase == Phase::Matched)
        ==> s.message_id is Some
    &&& s.phase == Phase::Init ==> s.message_id is None
}

/// The state of one prompt: whom it asks, what it sent, and how it ended.
#[derive(Debug)]
pub struct Session {
    phase: Phase,
    chat_id: i128,
    message_id: Option<i128>,
    text: String,
    keyboard: Keyboard,
    outcome: Option<Outcome>,
}

/// The plain value of an outcome that may not be there yet.
pub open spec fn outcome_view(outcome: Option<Outcome>) -> Option<OutcomeView> {
    match outcome {
        Some(o) => Some(o@),
        None => None,
    }
}

impl View for Session {
    type V = SessionView;

    closed spec fn view(&self) -> SessionView {
        SessionView {
            phase: self.phase,
            chat_id: self.chat_id,
            message_id: self.message_id,
            text: self.text@,
            keyboard: self.keyboard@,
            outcome: outcome_view(self.outcome),
        }
    }
}

impl Session {
    /// A session that is to ask `text` in chat `chat_id`, with the buttons
    /// that `keyboard` describes.
    pub fn new(chat_id: i128, text: &str, keyboard: &str) -> (session: Session)
        ensures
            session@ == (SessionView {
                phase: Phase::Init,
                chat_id,
                message_id: None,
                text: text@,
                keyboard: keyboard_rows(keyboard@),
                outcome: None,
            }),
            consistent(session@),
    {
        Session {
            phase: Phase::Init,
            chat_id,
            message_id: None,
            text: text.to_owned(),
            keyboard: Keyboard::parse(keyboard),
            outcome: None,
        }
    }

    /// Where the session stands.
    pub fn phase(&self) -> (phase: Phase)
        ensures
            phase == self@.phase,
    {
        self.phase
    }

    /// The chat that is asked.
    pub fn chat_id(&self) -> (chat_id: i128)
        ensures
            chat_id == self@.chat_id,
    {
        self.chat_id
    }

    /// The message that was sent, once it was.
    pub fn message_id(&self) -> (message_id: Option<i128>)
        ensures
            message_id == self@.message_id,
    {
        self.message_id
    }

    /// The text of the prompt.
    pub fn text(&self) -> (text: &String)
        ensures
            text@ == self@.text,
    {
        &self.text
    }

    /// The buttons to send with the prompt.
    pub fn render(&self) -> (tree: Vec<Vec<Button>>)
        ensures
            renders(tree@, self@.keyboard),
    {
        self.keyboard.render()
    }

    /// The outcome, once the session is stopped; `None` before that.
    pub fn outcome(&self) -> (outcome: Option<&Outcome>)
        ensures
            self@.phase == Phase::Stopped ==> self@.outcome == match outcome {
                Some(o) => Some(o@),
                None => None,
            },
            self@.phase != Phase::Stopped ==> outcome is None,
    {
        match self.phase {
            Phase::Stopped => self.outcome.as_ref(),
            _ => None,
        }
    }

    /// Whether an interaction in `chat_id` on `message_id` answers the
    /// message that this session sent.
    pub fn accepts(&self, chat_id: i128, message_id: i128) -> (yes: bool)
        ensures
            yes == correlates(self@, chat_id, message_id),
    {
        match self.message_id {
            Some(sent) => chat_id == self.chat_id && message_id == sent,
            None => false,
        }
    }

    /// Records the failure `reason` and asks for the stop.
    fn fail(&mut self, reason: String) -> (action: Action)
        ensures
            (final(self)@, action@) == failed(old(self)@, reason@),
    {
        self.phase = Phase::Failed;
        self.outcome = Some(Outcome::Failed(reason));
        Action::Stop
    }

    /// What the phase is waiting for.
    fn waiting_for(&self) -> (action: Action)
        ensures
            action@ == pending(self@.phase),
    {
        match self.phase {
            Phase::Init => Action::Send,
            Phase::Sent => Action::OpenStream,
            Phase::Listening => Action::Await,
            Phase::Matched => Action::Stop,
            Phase::Failed => Action::Stop,
            Phase::Stopped => Action::Nothing,
        }
    }

    /// Takes one event and says what to do next.
    ///
    /// While the session listens, an interaction that names another chat or
    /// another message is dropped and the session goes on listening; the
    /// first one that names this session's chat and message is decoded and
    /// ends the listening; the end of the stream is a failure.
    pub fn step(&mut self, event: Event) -> (action: Action)
        ensures
            (final(self)@, action@) == next(old(self)@, event@),
            consistent(old(self)@) ==> consistent(final(self)@),
    {
        match self.phase {
            Phase::Init => match event {
                Event::Dispatched { message_id } => {
                    self.phase = Phase::Sent;
                    self.message_id = Some(message_id);
                    Action::OpenStream
                },
                Event::SendFailed(words) => self.fail(words),
                _ => self.waiting_for(),
            },
            Phase::Sent => match event {
                Event::Opened => {
                    self.phase = Phase::Listening;
                    Action::Await
                },
                Event::ListenFailed(words) => self.fail(words),
                _ => self.waiting_for(),
            },
            Phase::Listening => match event {
                Event::ListenFailed(words) => self.fail(words),
                Event::StreamEnded => self.fail(PromptError::NoInteraction.reason()),
                Event::Interaction { chat_id, message_id, custom_id } => {
                    if self.accepts(chat_id, message_id) {
                        match self.keyboard.decode(custom_id.as_str()) {
                            Ok(label) => {
                                self.phase = Phase::Matched;
                                self.outcome = Some(Outcome::Selected(label.clone()));
                                Action::Edit(label)
                            },
                            Err(err) => self.fail(err.reason()),
                        }
                    } else {
                        Action::Await
                    }
                },
                _ => self.waiting_for(),
            },
            Phase::Matched => match event {
                Event::EditFailed(words) => self.fail(words),
                _ => self.waiting_for(),
            },
            _ => self.waiting_for(),
        }
    }

    /// Takes a recorded run of events, one after another in their order.
    pub fn replay(&mut self, events: &Vec<Event>)
        ensures
            final(self)@ == after(old(self)@, event_views(events@)),
            consistent(old(self)@) ==> consistent(final(self)@),
    {
        let ghost start = self@;
        let ghost all = event_views(events@);
        let mut i: usize = 0;
        proof {
            assert(all.take(0) =~= Seq::<EventView>::empty());
        }
        while i < events.len()
            invariant
                i <= events.len(),
                all == event_views(events@),
                self@ == after(start, all.take(i as int)),
                consistent(start) ==> consistent(self@),
            decreases events.len() - i,
        {
            proof {
                assert(all.take(i + 1).drop_last() =~= all.take(i as int));
                assert(all.take(i + 1).last() == events[i as int]@);
            }
            self.step(events[i].duplicate());
            i += 1;
        }
        proof {
            assert(all.take(i as int) =~= all);
        }
    }

    /// Ends the session: a matched or failed session becomes stopped, with
    /// its outcome kept for the caller. The result says whether the
    /// connection is to be closed now, which is so for one call at most.
    pub fn stop(&mut self) -> (close: bool)
        ensures
            final(self)@ == stopped(old(self)@),
            close == (old(self)@.phase == Phase::Matched || old(self)@.phase == Phase::Failed),
            consistent(old(self)@) ==> consistent(final(self)@),
    {
        match self.phase {
            Phase::Matched => {
                self.phase = Phase::Stopped;
                true
            },
            Phase::Failed => {
                self.phase = Phase::Stopped;
                true
            },
            _ => false,
        }
    }
}

/// The state after a run of events, taken in their order.
pub open spec fn after(s: SessionView, events: Seq<EventView>) -> SessionView
    decreases events.len(),
{
    if events.len() == 0 {
        s
    } else {
        next(after(s, events.drop_last()), events.last()).0
    }
}

/// Whether a listening session `s` drops event `e`: it is no interaction, or
/// an interaction that names another chat or another message.
pub open spec fn dropped(s: SessionView, e: EventView) -> bool {
    match e {
        EventView::Other => true,
        EventView::Interaction { chat_id, message_id, custom_id } => !correlates(
            s,
            chat_id,
            message_id,
        ),
        _ => false,
    }
}

/// No event and no stop breaks the consistency of a session.
pub proof fn lemma_consistency_kept(s: SessionView, e: EventView)
    requires
        consistent(s),
    ensures
        consistent(next(s, e).0),
        consistent(stopped(s)),
{
}

/// A listening session drops an interaction that names another message, or
/// another chat, than its own: it stays as it was and goes on waiting.
pub proof fn lemma_unrelated_interaction_dropped(
    s: SessionView,
    chat_id: i128,
    message_id: i128,
    custom_id: Seq<char>,
)
    requires
        s.phase == Phase::Listening,
        s.message_id != Some(message_id) || s.chat_id != chat_id,
    ensures
        next(s, EventView::Interaction { chat_id, message_id, custom_id }) == (
            s,
            ActionView::Await,
        ),
{
}

/// However many events a listening session drops, it is unchanged after
/// them: nothing is kept of what came before the first matching interaction.
pub proof fn lemma_dropped_events_leave_no_trace(s: SessionView, events: Seq<EventView>)
    requires
        s.phase == Phase::Listening,
        forall|i: int| 0 <= i < events.len() ==> dropped(s, #[trigger] events[i]),
    ensures
        after(s, events) == s,
    decreases events.len(),
{
    if events.len() > 0 {
        lemma_dropped_events_leave_no_trace(s, events.drop_last());
        assert(dropped(s, events.last()));
    }
}

/// An interaction with the session's own chat and message that carries the
/// identifier of a button selects that button's label, and the stop keeps it.
pub proof fn lemma_matching_interaction_selects(s: SessionView, row: nat, button: nat)
    requires
        s.phase == Phase::Listening,
        s.message_id is Some,
        has_button(s.keyboard, row, button),
    ensures
        ({
            let e = EventView::Interaction {
                chat_id: s.chat_id,
                message_id: s.message_id->0,
                custom_id: button_id(row, button),
            };
            let label = s.keyboard[row as int][button as int];
            &&& next(s, e).1 == ActionView::Edit(label)
            &&& next(s, e).0.phase == Phase::Matched
            &&& stopped(next(s, e).0).phase == Phase::Stopped
            &&& stopped(next(s, e).0).outcome == Some(OutcomeView::Selected(label))
        }),
{
    lemma_decode_button_id(s.keyboard, row, button);
}

/// A stream that ends while the session listens fails the session for want
/// of an interaction, and the stop that follows records that.
pub proof fn lemma_stream_end_fails(s: SessionView)
    requires
        s.phase == Phase::Listening,
    ensures
        next(s, EventView::StreamEnded).1 == ActionView::Stop,
        stopped(next(s, EventView::StreamEnded).0).phase == Phase::Stopped,
        stopped(next(s, EventView::StreamEnded).0).outcome == Some(
            OutcomeView::Failed(no_interaction_text()),
        ),
{
}

/// Stopping twice is stopping once, and once stopped a session is closed to
/// every event: its outcome is final.
pub proof fn lemma_stop_is_final(s: SessionView, e: EventView)
    ensures
        stopped(stopped(s)) == stopped(s),
        stopped(s).phase != Phase::Matched && stopped(s).phase != Phase::Failed,
        s.phase == Phase::Stopped ==> next(s, e) == (s, ActionView::Nothing),
{
}

/// In silent mode a prompt succeeds only if the first button of the first
/// row of `keyboard` was chosen.
pub fn silent_success(outcome: &Outcome, keyboard: &str) -> (success: bool)
    ensures
        success == (outcome@ == OutcomeView::Selected(keyboard_rows(keyboard@)[0][0])),
{
    match outcome {
        Outcome::Selected(label) => is_first_button(label.as_str(), keyboard),
        Outcome::Failed(_) => false,
    }
}

/// The prompt text with the chosen label on a line of its own below it.
pub fn appended_text(text: &str, label: &str) -> (shown: String)
    ensures
        shown@ == text@ + seq!['\n'] + label@,
{
    proof {
        reveal_strlit("\n");
    }
    let mut shown = text.to_owned();
    shown.append("\n");
    shown.append(label);
    proof {
        assert(shown@ =~= text@ + seq!['\n'] + label@);
    }
    shown
}

/// The prompt text with the chosen label below it, set between asterisks.
pub fn highlighted_text(text: &str, label: &str) -> (shown: String)
    ensures
        shown@ == text@ + seq!['\n', '*'] + label@ + seq!['*'],
{
    proof {
        reveal_strlit("\n*");
        reveal_strlit("*");
    }
    let mut shown = text.to_owned();
    shown.append("\n*");
    shown.append(label);
    shown.append("*");
    proof {
        assert(shown@ =~= text@ + seq!['\n', '*'] + label@ + seq!['*']);
    }
    shown
}

} // verus!
