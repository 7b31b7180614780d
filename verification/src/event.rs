//! The event aggregator: one ordered queue that three producers feed and one
//! consumer drains.
//!
//! The keyboard reader, the ticker and the listener for the window manager's
//! notifications each report what they observed through a method of
//! [`Events`]; the control loop takes the events out with [`Events::next`], in
//! the order in which they were accepted. `Events` itself never blocks and
//! never reads anything: whoever owns it decides how the producers run and how
//! the consumer waits.

use std::collections::VecDeque;
use vstd::prelude::*;

verus! {

/// A key press, as the terminal reports it.
#[derive(Clone, Copy, Debug, PartialEq, Eq, Structural)]
pub enum Key {
    Backspace,
    Left,
    Right,
    Up,
    Down,
    Home,
    End,
    PageUp,
    PageDown,
    BackTab,
    Delete,
    Insert,
    /// A function key, by its number.
    F(u8),
    /// A plain character.
    Char(char),
    /// A character pressed together with Alt.
    Alt(char),
    /// A character pressed together with Ctrl.
    Ctrl(char),
    Null,
    Esc,
}

/// What the aggregator delivers to the control loop.
#[derive(Debug, PartialEq, Eq)]
pub enum Event<I> {
    /// A key was pressed.
    Input(I),
    /// The ticker's interval has passed.
    Tick,
    /// The window manager reported a change of its tree.
    I3,
}

/// Settings of the aggregator.
#[derive(Clone, Copy, Debug, PartialEq, Eq, Structural)]
pub struct Config {
    /// The key after which the keyboard producer ends, unless that is
    /// suppressed.
    pub exit_key: Key,
    /// The ticker's interval in milliseconds.
    pub tick_rate_ms: u64,
}

impl Default for Config {
    fn default() -> (config: Config)
        ensures
            config == (Config { exit_key: Key::Char('q'), tick_rate_ms: 250 }),
    {
        Config { exit_key: Key::Char('q'), tick_rate_ms: 250 }
    }
}

/// One of the three sources of events.
#[derive(Clone, Copy, Debug, PartialEq, Eq, Structural)]
pub enum Producer {
    /// The keyboard reader.
    Input,
    /// The ticker.
    Tick,
    /// The listener for the window manager's notifications.
    I3,
}

/// What a producer does after it has reported an observation.
#[derive(Clone, Copy, Debug, PartialEq, Eq, Structural)]
pub enum Flow {
    /// Go on observing.
    Continue,
    /// End: nothing this producer reports from now on is delivered.
    Stop,
}

/// Why [`Events::next`] has no event to hand out.
#[derive(Clone, Copy, Debug, PartialEq, Eq, Structural)]
pub enum RecvError {
    /// Nothing is queued, but a producer may still deliver: wait and ask
    /// again.
    Empty,
    /// Nothing is queued and nothing will be: the queue was closed, or every
    /// producer has ended.
    Disconnected,
}

/// The aggregator's state as contracts see it.
pub struct EventsView {
    /// The events accepted and not yet taken out, oldest first.
    pub queue: Seq<Event<Key>>,
    /// Whether the exit key is suppressed.
    pub ignore_exit_key: bool,
    pub config: Config,
    pub input_running: bool,
    pub tick_running: bool,
    pub i3_running: bool,
    /// Whether the consumer has hung up.
    pub closed: bool,
}

impl EventsView {
    /// The state in which an aggregator starts: nothing queued, the exit key
    /// in force, all three producers running.
    pub open spec fn fresh(config: Config) -> EventsView {
        EventsView {
            queue: Seq::empty(),
            ignore_exit_key: false,
            config,
            input_running: true,
            tick_running: true,
            i3_running: true,
            closed: false,
        }
    }

    /// Whether `producer` has not ended yet.
    pub open spec fn running(self, producer: Producer) -> bool {
        match producer {
            Producer::Input => self.input_running,
            Producer::Tick => self.tick_running,
            Producer::I3 => self.i3_running,
        }
    }

    /// Whether an event offered by `producer` is accepted into the queue.
    pub open spec fn accepts(self, producer: Producer) -> bool {
        !self.closed && self.running(producer)
    }

    /// The state after `producer` has ended.
    pub open spec fn stopped(self, producer: Producer) -> EventsView {
        match producer {
            Producer::Input => EventsView { input_running: false, ..self },
            Producer::Tick => EventsView { tick_running: false, ..self },
            Producer::I3 => EventsView { i3_running: false, ..self },
        }
    }

    /// The state after `event` was appended to the queue.
    pub open spec fn enqueued(self, event: Event<Key>) -> EventsView {
        EventsView { queue: self.queue.push(event), ..self }
    }

    /// Whether `key` ends the keyboard producer: it is the exit key, and the
    /// exit key is not suppressed.
    pub open spec fn is_exit(self, key: Key) -> bool {
        !self.ignore_exit_key && key == self.config.exit_key
    }

    /// The keyboard producer reports `key`.
    ///
    /// While the producer runs and the queue is open the key is queued; the
    /// producer then ends if the key is the exit key in force. Otherwise
    /// nothing is queued and the producer has ended.
    pub open spec fn key_pressed(self, key: Key) -> (EventsView, Flow) {
        if !self.accepts(Producer::Input) {
            (self.stopped(Producer::Input), Flow::Stop)
        } else if self.is_exit(key) {
            (self.enqueued(Event::Input(key)).stopped(Producer::Input), Flow::Stop)
        } else {
            (self.enqueued(Event::Input(key)), Flow::Continue)
        }
    }

    /// The keyboard producer reports that a key could not be read. The failed
    /// read is passed over: nothing is queued, and the producer goes on unless
    /// it has ended or the queue is closed.
    pub open spec fn key_read_failed(self) -> (EventsView, Flow) {
        if !self.accepts(Producer::Input) {
            (self.stopped(Producer::Input), Flow::Stop)
        } else {
            (self, Flow::Continue)
        }
    }

    /// The ticker reports that its interval has passed.
    pub open spec fn tick(self) -> (EventsView, Flow) {
        if !self.accepts(Producer::Tick) {
            (self.stopped(Producer::Tick), Flow::Stop)
        } else {
            (self.enqueued(Event::Tick), Flow::Continue)
        }
    }

    /// The listener reports a notification of the window manager.
    pub open spec fn tree_changed(self) -> (EventsView, Flow) {
        if !self.accepts(Producer::I3) {
            (self.stopped(Producer::I3), Flow::Stop)
        } else {
            (self.enqueued(Event::I3), Flow::Continue)
        }
    }

    /// The listener reports that it could not read a notification. Nothing is
    /// queued and the listener ends.
    pub open spec fn listen_failed(self) -> (EventsView, Flow) {
        (self.stopped(Producer::I3), Flow::Stop)
    }

    /// Whether nothing can be delivered any more once the queue is empty.
    pub open spec fn disconnected(self) -> bool {
        self.closed || (!self.input_running && !self.tick_running && !self.i3_running)
    }

    /// The consumer asks for the next event.
    pub open spec fn next(self) -> (EventsView, Result<Event<Key>, RecvError>) {
        if self.queue.len() > 0 {
            (EventsView { queue: self.queue.drop_first(), ..self }, Ok(self.queue[0]))
        } else if self.disconnected() {
            (self, Err(RecvError::Disconnected))
        } else {
            (self, Err(RecvError::Empty))
        }
    }

    /// The consumer hangs up: what is queued is dropped and nothing is
    /// accepted from now on.
    pub open spec fn close(self) -> EventsView {
        EventsView { queue: Seq::empty(), closed: true, ..self }
    }

    /// The state after the producer that `event` belongs to has reported it.
    pub open spec fn offer(self, event: Event<Key>) -> EventsView {
        match event {
            Event::Input(key) => self.key_pressed(key).0,
            Event::Tick => self.tick().0,
            Event::I3 => self.tree_changed().0,
        }
    }

    /// The state after the producers have reported `events`, one after the
    /// other in that order.
    pub open spec fn offer_all(self, events: Seq<Event<Key>>) -> EventsView
        decreases events.len(),
    {
        if events.len() == 0 {
            self
        } else {
            self.offer_all(events.drop_last()).offer(events.last())
        }
    }

    /// What `n` calls of `next` in a row return, first call first.
    pub open spec fn received(self, n: nat) -> Seq<Result<Event<Key>, RecvError>>
        decreases n,
    {
        if n == 0 {
            Seq::empty()
        } else {
            seq![self.next().1] + self.next().0.received((n - 1) as nat)
        }
    }

    /// The state after `n` calls of `next` in a row.
    pub open spec fn drained(self, n: nat) -> EventsView
        decreases n,
    {
        if n == 0 {
            self
        } else {
            self.next().0.drained((n - 1) as nat)
        }
    }
}

/// Whether `event` is a key press that ends the keyboard producer in the
/// state `s`.
pub open spec fn ends_keyboard(s: EventsView, event: Event<Key>) -> bool {
    event matches Event::Input(key) && s.is_exit(key)
}

/// Wraps every event of `events` in `Ok`, as `next` hands it out.
pub open spec fn delivered(events: Seq<Event<Key>>) -> Seq<Result<Event<Key>, RecvError>> {
    Seq::new(events.len(), |i: int| Ok(events[i]))
}

/// While all three producers run and the queue is open, every reported event
/// is appended to the queue, in the order of the reports, provided that no
/// report but the last is a key that ends the keyboard producer.
pub proof fn lemma_offer_all_appends(s: EventsView, events: Seq<Event<Key>>)
    requires
        !s.closed,
        s.input_running,
        s.tick_running,
        s.i3_running,
        forall|i: int| 0 <= i < events.len() - 1 ==> !ends_keyboard(s, #[trigger] events[i]),
    ensures
        s.offer_all(events) == (EventsView {
            queue: s.queue + events,
            input_running: events.len() == 0 || !ends_keyboard(s, events.last()),
            ..s
        }),
    decreases events.len(),
{
    if events.len() > 0 {
        let front = events.drop_last();
        lemma_offer_all_appends(s, front);
        assert((s.queue + front).push(events.last()) =~= s.queue + events);
    }
}

/// As long as enough events are queued, `next` hands them out oldest first
/// and takes each one out of the queue.
pub proof fn lemma_next_is_fifo(s: EventsView, n: nat)
    requires
        n <= s.queue.len(),
    ensures
        s.received(n) == delivered(s.queue.take(n as int)),
        s.drained(n) == (EventsView { queue: s.queue.skip(n as int), ..s }),
    decreases n,
{
    if n == 0 {
        assert(s.queue.skip(0) =~= s.queue);
    } else {
        let rest = s.next().0;
        lemma_next_is_fifo(rest, (n - 1) as nat);
        assert(rest.queue.skip(n - 1) =~= s.queue.skip(n as int));
        assert(s.received(n) =~= delivered(s.queue.take(n as int)));
    }
}

/// Fan-in loses nothing and repeats nothing. However the reports of the
/// three producers interleave, once they have reported `events` on an empty
/// queue, as many calls of `next` as there were reports return exactly those
/// events, each once, in the order of the reports; the queue is then empty
/// again. The keyboard producer reports nothing after a key that ends it, so
/// such a key can only be the last report.
pub proof fn lemma_every_event_is_delivered_once(s: EventsView, events: Seq<Event<Key>>)
    requires
        s.queue.len() == 0,
        !s.closed,
        s.input_running,
        s.tick_running,
        s.i3_running,
        forall|i: int| 0 <= i < events.len() - 1 ==> !ends_keyboard(s, #[trigger] events[i]),
    ensures
        s.offer_all(events).received(events.len()) == delivered(events),
        s.offer_all(events).received(events.len()).to_multiset() == delivered(
            events,
        ).to_multiset(),
        s.offer_all(events).drained(events.len()).queue.len() == 0,
{
    lemma_offer_all_appends(s, events);
    lemma_next_is_fifo(s.offer_all(events), events.len());
}

/// While the exit key is suppressed it does not end the keyboard producer:
/// the producer goes on after it, and the key reported next is queued behind
/// it.
pub proof fn lemma_suppressed_exit_key_keeps_keyboard_running(s: EventsView, second: Key)
    requires
        s.accepts(Producer::Input),
    ensures
        ({
            let suppressed = EventsView { ignore_exit_key: true, ..s };
            let (after_exit, flow) = suppressed.key_pressed(s.config.exit_key);
            let (after_second, _) = after_exit.key_pressed(second);
            &&& flow == Flow::Continue
            &&& after_exit.input_running
            &&& after_second.queue == s.queue + seq![
                Event::Input(s.config.exit_key),
                Event::Input(second),
            ]
        }),
{
}

/// While the exit key is in force it ends the keyboard producer: the key
/// itself is still queued, and no key reported after it is.
pub proof fn lemma_exit_key_ends_keyboard(s: EventsView, second: Key)
    requires
        s.accepts(Producer::Input),
        !s.ignore_exit_key,
    ensures
        ({
            let (after_exit, flow) = s.key_pressed(s.config.exit_key);
            let (after_second, second_flow) = after_exit.key_pressed(second);
            &&& flow == Flow::Stop
            &&& after_exit.queue == s.queue.push(Event::Input(s.config.exit_key))
            &&& !after_exit.input_running
            &&& second_flow == Flow::Stop
            &&& after_second == after_exit
        }),
{
}

/// The event aggregator.
pub struct Events {
    queue: VecDeque<Event<Key>>,
    ignore_exit_key: bool,
    config: Config,
    input_running: bool,
    tick_running: bool,
    i3_running: bool,
    closed: bool,
}

impl View for Events {
    type V = EventsView;

    closed spec fn view(&self) -> EventsView {
        EventsView {
            queue: self.queue@,
            ignore_exit_key: self.ignore_exit_key,
            config: self.config,
            input_running: self.input_running,
            tick_running: self.tick_running,
            i3_running: self.i3_running,
            closed: self.closed,
        }
    }
}

impl Events {
    /// An aggregator with the default settings.
    pub fn new() -> (events: Events)
        ensures
            events@ == EventsView::fresh(Config { exit_key: Key::Char('q'), tick_rate_ms: 250 }),
    {
        Events::with_config(Config::default())
    }

    /// An aggregator with the settings `config`.
    pub fn with_config(config: Config) -> (events: Events)
        ensures
            events@ == EventsView::fresh(config),
    {
        Events {
            queue: VecDeque::new(),
            ignore_exit_key: false,
            config,
            input_running: true,
            tick_running: true,
            i3_running: true,
            closed: false,
        }
    }

    /// Takes the oldest queued event out.
    pub fn next(&mut self) -> (result: Result<Event<Key>, RecvError>)
        ensures
            (final(self)@, result) == old(self)@.next(),
    {
        match self.queue.pop_front() {
            Some(event) => Ok(event),
            None => {
                if self.closed || (!self.input_running && !self.tick_running && !self.i3_running) {
                    Err(RecvError::Disconnected)
                } else {
                    Err(RecvError::Empty)
                }
            },
        }
    }

    /// Suppresses the exit key: the keyboard producer goes on after it.
    pub fn disable_exit_key(&mut self)
        ensures
            final(self)@ == (EventsView { ignore_exit_key: true, ..old(self)@ }),
    {
        self.ignore_exit_key = true;
    }

    /// Puts the exit key in force again: the keyboard producer ends after it.
    pub fn enable_exit_key(&mut self)
        ensures
            final(self)@ == (EventsView { ignore_exit_key: false, ..old(self)@ }),
    {
        self.ignore_exit_key = false;
    }

    /// The keyboard producer reports the key `key`.
    pub fn key_pressed(&mut self, key: Key) -> (flow: Flow)
        ensures
            (final(self)@, flow) == old(self)@.key_pressed(key),
    {
        if self.closed || !self.input_running {
            self.input_running = false;
            return Flow::Stop;
        }
        self.queue.push_back(Event::Input(key));
        if !self.ignore_exit_key && key == self.config.exit_key {
            self.input_running = false;
            Flow::Stop
        } else {
            Flow::Continue
        }
    }

    /// The keyboard producer reports that a key could not be read.
    pub fn key_read_failed(&mut self) -> (flow: Flow)
        ensures
            (final(self)@, flow) == old(self)@.key_read_failed(),
    {
        if self.closed || !self.input_running {
            self.input_running = false;
            Flow::Stop
        } else {
            Flow::Continue
        }
    }

    /// The ticker reports that its interval has passed.
    pub fn tick(&mut self) -> (flow: Flow)
        ensures
            (final(self)@, flow) == old(self)@.tick(),
    {
        if self.closed || !self.tick_running {
            self.tick_running = false;
            return Flow::Stop;
        }
        self.queue.push_back(Event::Tick);
        Flow::Continue
    }

    /// The listener reports a notification of the window manager.
    pub fn tree_changed(&mut self) -> (flow: Flow)
        ensures
            (final(self)@, flow) == old(self)@.tree_changed(),
    {
        if self.closed || !self.i3_running {
            self.i3_running = false;
            return Flow::Stop;
        }
        self.queue.push_back(Event::I3);
        Flow::Continue
    }

    /// The listener reports that it could not read a notification.
    pub fn listen_failed(&mut self) -> (flow: Flow)
        ensures
            (final(self)@, flow) == old(self)@.listen_failed(),
    {
        self.i3_running = false;
        Flow::Stop
    }

    /// `producer` has ended because its source ran dry.
    pub fn producer_finished(&mut self, producer: Producer)
        ensures
            final(self)@ == old(self)@.stopped(producer),
    {
        match producer {
            Producer::Input => {
                self.input_running = false;
            },
            Producer::Tick => {
                self.tick_running = false;
            },
            Producer::I3 => {
                self.i3_running = false;
            },
        }
    }

    /// The consumer hangs up.
    pub fn close(&mut self)
        ensures
            final(self)@ == old(self)@.close(),
    {
        self.queue.clear();
        self.closed = true;
    }
}

} // verus!
