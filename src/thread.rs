use vstd::prelude::*;

use std::sync::mpsc::{Receiver, Sender};

use crate::decode::{decode_image, decoded_image};
use crate::events::{CommandModel, DataCommand, DataEvent, EventModel, ImageType};

verus! {

#[verifier::external_type_specification]
#[verifier::external_body]
#[verifier::reject_recursive_types(T)]
pub struct ExReceiver<T>(std::sync::mpsc::Receiver<T>);

#[verifier::external_type_specification]
#[verifier::external_body]
#[verifier::reject_recursive_types(T)]
pub struct ExSender<T>(std::sync::mpsc::Sender<T>);

/// Pause after each processed command, in milliseconds, unless another is set.
pub const DEFAULT_PAUSE_MS: u64 = 10;

/// The event that answers `command`: its role tag, with the bitmap that
/// decoding gives or, where decoding fails, none.
pub open spec fn event_for(command: CommandModel) -> EventModel {
    (command.1, decoded_image(command.0, command.2))
}

/// The events that answer `commands`, one each, in the same order.
pub open spec fn events_for(commands: Seq<CommandModel>) -> Seq<EventModel> {
    commands.map_values(|command: CommandModel| event_for(command))
}

/// Carries out one command and builds the event that reports its outcome.
/// A failed decode is reported, never passed on as an error.
pub fn handle_command(command: DataCommand) -> (r: DataEvent)
    ensures
        r@ == event_for(command@),
        r matches DataEvent::ImageDecoded(image, _) ==> image.wf(),
        command@.0.len() == 0 ==> r is DecodeError,
{
    match command {
        DataCommand::DecodeImage(data, image_type, layout) => {
            match decode_image(data.as_slice(), layout) {
                Some(image) => DataEvent::ImageDecoded(image, image_type),
                None => DataEvent::DecodeError(image_type),
            }
        },
    }
}

/// Relies on `mpsc::Receiver::recv`: blocks for the next command, and gives
/// nothing once every sender is gone and the queue is empty.
#[verifier::external_body]
fn receive_command(commands_rx: &Receiver<DataCommand>) -> (r: Option<DataCommand>) {
    commands_rx.recv().ok()
}

/// Relies on `mpsc::Sender::send`: queues the event, and fails only when the
/// receiving half is gone.
#[verifier::external_body]
fn send_event(events_tx: &Sender<DataEvent>, event: DataEvent) -> (sent: bool) {
    events_tx.send(event).is_ok()
}

/// What one turn of the data thread came to.
#[derive(Clone, Copy, Debug, PartialEq, Eq, Structural)]
pub enum WorkerStep {
    /// A command was carried out and its event sent; pause, then go on.
    Processed,
    /// Every command sender is gone: the thread is done.
    Closed,
    /// The event receiver is gone, which the system never lets happen.
    EventsLost,
}

/// The data thread's side of the two channels: it takes commands, decodes,
/// and reports each outcome as one event.
pub struct DataThread {
    commands_rx: Receiver<DataCommand>,
    events_tx: Sender<DataEvent>,
    pause_ms: u64,
    /// The commands carried out so far, in the order they arrived.
    handled: Ghost<Seq<CommandModel>>,
    /// The events sent so far, in the order they were sent.
    sent: Ghost<Seq<EventModel>>,
}

impl DataThread {
    /// Each command carried out has had exactly its own event sent, in order.
    pub open spec fn wf(&self) -> bool {
        self.sent() == events_for(self.handled())
    }

    /// The commands carried out so far, oldest first.
    pub closed spec fn handled(&self) -> Seq<CommandModel> {
        self.handled@
    }

    /// The events sent so far, oldest first.
    pub closed spec fn sent(&self) -> Seq<EventModel> {
        self.sent@
    }

    /// The pause after each processed command, in milliseconds.
    pub closed spec fn pause(&self) -> u64 {
        self.pause_ms
    }

    /// The data thread over the receiving end of the command channel and the
    /// sending end of the event channel, with the default pause.
    pub fn new(commands_rx: Receiver<DataCommand>, events_tx: Sender<DataEvent>) -> (r: Self)
        ensures
            r.wf(),
            r.handled() == Seq::<CommandModel>::empty(),
            r.sent() == Seq::<EventModel>::empty(),
            r.pause() == DEFAULT_PAUSE_MS,
    {
        DataThread::with_pause(commands_rx, events_tx, DEFAULT_PAUSE_MS)
    }

    /// As `new`, with the pause after each command set to `pause_ms`.
    pub fn with_pause(
        commands_rx: Receiver<DataCommand>,
        events_tx: Sender<DataEvent>,
        pause_ms: u64,
    ) -> (r: Self)
        ensures
            r.wf(),
            r.handled() == Seq::<CommandModel>::empty(),
            r.sent() == Seq::<EventModel>::empty(),
            r.pause() == pause_ms,
    {
        assert(events_for(Seq::<CommandModel>::empty()) =~= Seq::<EventModel>::empty());
        DataThread {
            commands_rx,
            events_tx,
            pause_ms,
            handled: Ghost(Seq::empty()),
            sent: Ghost(Seq::empty()),
        }
    }

    /// Milliseconds to pause after each processed command.
    pub fn pause_ms(&self) -> (r: u64)
        ensures
            r == self.pause(),
    {
        self.pause_ms
    }

    /// Records the outcome of sending the event for `command`: a delivered
    /// event is logged with its command and the thread goes on; an undelivered
    /// one means the event receiver is gone, and nothing is logged.
    pub fn record_send(&mut self, command: Ghost<CommandModel>, sent: bool) -> (r: WorkerStep)
        requires
            old(self).wf(),
        ensures
            final(self).wf(),
            final(self).pause() == old(self).pause(),
            sent ==> r == WorkerStep::Processed
                && final(self).handled() == old(self).handled().push(command@)
                && final(self).sent() == old(self).sent().push(event_for(command@)),
            !sent ==> r == WorkerStep::EventsLost
                && final(self).handled() == old(self).handled()
                && final(self).sent() == old(self).sent(),
    {
        if sent {
            proof {
                self.handled@ = self.handled@.push(command@);
                self.sent@ = self.sent@.push(event_for(command@));
                assert(events_for(self.handled@) =~= events_for(old(self).handled@).push(
                    event_for(command@),
                ));
            }
            WorkerStep::Processed
        } else {
            WorkerStep::EventsLost
        }
    }

    /// Carries out one received command and sends the one event that reports
    /// it. A failed decode is answered by its error event and the thread goes
    /// on; only a lost event receiver ends the turn otherwise, and then
    /// nothing is recorded.
    pub fn process(&mut self, command: DataCommand) -> (r: WorkerStep)
        requires
            old(self).wf(),
        ensures
            final(self).wf(),
            final(self).pause() == old(self).pause(),
            r != WorkerStep::Closed,
            r == WorkerStep::Processed ==> final(self).handled() == old(self).handled().push(command@)
                && final(self).sent() == old(self).sent().push(event_for(command@)),
            r == WorkerStep::EventsLost ==> final(self).handled() == old(self).handled()
                && final(self).sent() == old(self).sent(),
    {
        let ghost model = command@;
        let event = handle_command(command);
        let sent = send_event(&self.events_tx, event);
        self.record_send(Ghost(model), sent)
    }

    /// Decides on what one wait for a command gave: nothing means every
    /// command sender is gone and the queue is drained, so the thread is done
    /// and sends nothing; a command is processed, and never ends the thread.
    pub fn on_received(&mut self, received: Option<DataCommand>) -> (r: WorkerStep)
        requires
            old(self).wf(),
        ensures
            final(self).wf(),
            final(self).pause() == old(self).pause(),
            received is None ==> r == WorkerStep::Closed
                && final(self).handled() == old(self).handled()
                && final(self).sent() == old(self).sent(),
            received matches Some(command) ==> {
                &&& r != WorkerStep::Closed
                &&& r == WorkerStep::Processed ==> final(self).handled() == old(self).handled().push(command@)
                    && final(self).sent() == old(self).sent().push(event_for(command@))
                &&& r == WorkerStep::EventsLost ==> final(self).handled() == old(self).handled()
                    && final(self).sent() == old(self).sent()
            },
    {
        match received {
            None => WorkerStep::Closed,
            Some(command) => self.process(command),
        }
    }

    /// One turn of the data thread: waits for the next command and decides on
    /// it with `on_received`.
    pub fn step(&mut self) -> (r: WorkerStep)
        requires
            old(self).wf(),
        ensures
            final(self).wf(),
            final(self).pause() == old(self).pause(),
            r == WorkerStep::Processed ==> exists|command: CommandModel|
                {
                    &&& final(self).handled() == old(self).handled().push(command)
                    &&& final(self).sent() == old(self).sent().push(#[trigger] event_for(command))
                },
            r != WorkerStep::Processed ==> final(self).handled() == old(self).handled()
                && final(self).sent() == old(self).sent(),
    {
        let received = receive_command(&self.commands_rx);
        self.on_received(received)
    }
}

/// A handle of the user-facing side, built from the sending end of the command
/// channel and the receiving end of the event channel.
pub trait DataInterface: Sized {
    fn new(commands_tx: Sender<DataCommand>, events_rx: Receiver<DataEvent>) -> Self;
}

/// However many commands are carried out, there are exactly as many events,
/// and the role tags of the events follow those of the commands in order.
pub proof fn lemma_one_event_per_command(commands: Seq<CommandModel>)
    ensures
        events_for(commands).len() == commands.len(),
        forall|i: int| 0 <= i < commands.len() ==> (#[trigger] events_for(commands)[i]).0 == commands[i].1,
{
}

/// A command whose bytes the image crate cannot decode is answered by a
/// decode error that carries the command's own role tag, and never by a bitmap.
pub proof fn lemma_undecodable_gives_error(command: CommandModel)
    requires
        crate::decode::rgba8_decode(command.0) is None,
    ensures
        event_for(command) == (command.1, None::<crate::bitmap::BitmapModel>),
{
}

} // verus!
