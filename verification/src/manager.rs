//! The sensor manager: the state that the acquisition loop and its consumer
//! share, and every decision that is taken on it.
//!
//! The manager does no I/O. Whoever drives it opens the device, reads
//! reports on a timer and hands each outcome to [`SensorManager::publish`];
//! the consumer asks for the latest reading or for the next queued update.

use crate::channel::{
    channel_limit, offer, open_channel, paired, poll, queued, Delivery, Update,
};
use crate::config::SensorConfig;
use crate::error::SensorError;
use crate::reading::SensorData;
use crossbeam_channel::{Receiver, Sender};
use vstd::prelude::*;

verus! {

/// How long one read waits for a report, in milliseconds.
pub const READ_TIMEOUT_MS: i32 = 100;

/// How many updates the channel to the consumer holds.
pub const UPDATE_CHANNEL_CAPACITY: usize = 10;

/// Where the acquisition loop stands.
#[derive(Debug, Clone, Copy, PartialEq, Eq, Structural)]
pub enum AcquisitionState {
    /// No loop has been started; there may never be one.
    NotStarted,
    /// The loop reads and publishes.
    Running,
    /// The loop has ended for good.
    Terminated,
}

/// What the acquisition loop does after publishing an update.
#[derive(Debug, Clone, Copy, PartialEq, Eq, Structural)]
pub enum LoopControl {
    /// Sleep for `pause_ms` milliseconds, then read again.
    Continue { pause_ms: u64 },
    /// End the loop.
    Stop,
}

/// A sensor manager as contracts see it.
pub struct ManagerView {
    /// The settings the manager was made with.
    pub config: SensorConfig,
    /// Where the acquisition loop stands.
    pub state: AcquisitionState,
    /// The most recent good reading; all zero before the first.
    pub latest: SensorData,
    /// Whether the update channel and its consumer's end exist.
    pub listening: bool,
    /// The updates that wait for the consumer, oldest first.
    pub queue: Seq<Update>,
}

/// The queue after `update` was offered to it: the update goes to the back
/// while there is room and is dropped when the queue is full.
pub open spec fn offered(queue: Seq<Update>, update: Update) -> Seq<Update> {
    if queue.len() < UPDATE_CHANNEL_CAPACITY {
        queue.push(update)
    } else {
        queue
    }
}

impl ManagerView {
    /// A manager that has not started: nothing read, nothing queued, nobody
    /// listening.
    pub open spec fn is_fresh(self, config: SensorConfig) -> bool {
        &&& self.config == config
        &&& self.state is NotStarted
        &&& self.latest.is_zeroed()
        &&& !self.listening
        &&& self.queue == Seq::<Update>::empty()
    }

    /// Whether starting has any effect: acquisition is enabled and was not
    /// started before.
    pub open spec fn needs_device(self) -> bool {
        self.config.enabled && self.state is NotStarted
    }

    /// The manager after a start for which a device was opened: running,
    /// with an empty update channel.
    pub open spec fn started(self) -> ManagerView {
        ManagerView {
            state: AcquisitionState::Running,
            listening: true,
            queue: Seq::empty(),
            ..self
        }
    }

    /// The manager after `start` was handed the outcome `probe` of opening
    /// a device.
    pub open spec fn after_start(self, probe: Result<(), SensorError>) -> ManagerView {
        if self.needs_device() && probe is Ok {
            self.started()
        } else {
            self
        }
    }

    /// The manager after its snapshot took in `update`: a reading replaces
    /// the snapshot, an error leaves it as it was.
    pub open spec fn recorded(self, update: Update) -> ManagerView {
        match update {
            Ok(reading) => ManagerView { latest: reading, ..self },
            Err(_) => self,
        }
    }

    /// The manager after one update was published. A running manager takes
    /// the update into its snapshot and offers it to the channel; without a
    /// consumer the loop is over. Outside the running state nothing is
    /// published.
    pub open spec fn published(self, update: Update) -> ManagerView {
        if !(self.state is Running) {
            self
        } else if self.listening {
            ManagerView { queue: offered(self.queue, update), ..self.recorded(update) }
        } else {
            ManagerView { state: AcquisitionState::Terminated, ..self.recorded(update) }
        }
    }

    /// The update that the consumer gets next, if one is queued.
    pub open spec fn next_update(self) -> Option<Update> {
        if self.listening && self.queue.len() > 0 {
            Some(self.queue.first())
        } else {
            None
        }
    }

    /// The manager after the consumer asked for the next update.
    pub open spec fn received(self) -> ManagerView {
        if self.listening && self.queue.len() > 0 {
            ManagerView { queue: self.queue.drop_first(), ..self }
        } else {
            self
        }
    }

    /// The manager after the consumer gave up its end of the channel: what
    /// was queued is gone with it.
    pub open spec fn disconnected(self) -> ManagerView {
        ManagerView { listening: false, queue: Seq::empty(), ..self }
    }

    /// What the loop does next.
    pub open spec fn control(self) -> LoopControl {
        if self.state is Running {
            LoopControl::Continue { pause_ms: self.config.update_interval_ms }
        } else {
            LoopControl::Stop
        }
    }
}

/// Owns the sensor settings, the last good reading and the update channel.
pub struct SensorManager {
    config: SensorConfig,
    data: SensorData,
    state: AcquisitionState,
    channel: Option<(Sender<Update>, Receiver<Update>)>,
}

impl View for SensorManager {
    type V = ManagerView;

    closed spec fn view(&self) -> ManagerView {
        ManagerView {
            config: self.config,
            state: self.state,
            latest: self.data,
            listening: self.channel is Some,
            queue: match self.channel {
                Some(ends) => queued(ends),
                None => Seq::empty(),
            },
        }
    }
}

impl SensorManager {
    #[verifier::type_invariant]
    spec fn well_formed(self) -> bool {
        &&& self.state is NotStarted ==> self.channel is None && self.data.is_zeroed()
        &&& self.channel matches Some(ends) ==> paired(ends) && channel_limit(ends)
            == UPDATE_CHANNEL_CAPACITY
    }

    /// A manager that has not started. Its latest reading is all zero.
    pub fn new(config: SensorConfig) -> (manager: SensorManager)
        ensures
            manager@.is_fresh(config),
    {
        SensorManager {
            config,
            data: SensorData::default(),
            state: AcquisitionState::NotStarted,
            channel: None,
        }
    }

    /// The settings the manager was made with.
    pub fn config(&self) -> (config: SensorConfig)
        ensures
            config == self@.config,
    {
        self.config
    }

    /// Where the acquisition loop stands.
    pub fn state(&self) -> (state: AcquisitionState)
        ensures
            state == self@.state,
    {
        self.state
    }

    /// Whether a device has to be opened before [`SensorManager::start`]:
    /// acquisition is enabled and was not started before.
    pub fn needs_device(&self) -> (needed: bool)
        ensures
            needed == self@.needs_device(),
    {
        self.config.enabled && self.state == AcquisitionState::NotStarted
    }

    /// Starts acquisition, given the outcome `probe` of opening a device.
    ///
    /// With sensors disabled, or after an earlier start, this does nothing
    /// and succeeds. Otherwise a failed probe is handed back and the manager
    /// stays as it was; a successful one opens the update channel and puts
    /// the loop in the running state.
    pub fn start(&mut self, probe: Result<(), SensorError>) -> (result: Result<(), SensorError>)
        ensures
            final(self)@ == old(self)@.after_start(probe),
            result is Err <==> old(self)@.needs_device() && probe is Err,
            result is Err ==> result == probe,
    {
        proof {
            use_type_invariant(&*self);
        }
        if !self.needs_device() {
            return Ok(());
        }
        match probe {
            Ok(()) => {
                let ends = open_channel(UPDATE_CHANNEL_CAPACITY);
                *self = SensorManager {
                    config: self.config,
                    data: self.data,
                    state: AcquisitionState::Running,
                    channel: Some(ends),
                };
                Ok(())
            },
            Err(e) => Err(e),
        }
    }

    /// A copy of the most recent good reading. Before the first one, and
    /// for as long as acquisition has not started, that is the all-zero
    /// reading.
    pub fn get_latest_data(&self) -> (data: SensorData)
        ensures
            data == self@.latest,
            self@.state is NotStarted ==> data.is_zeroed(),
    {
        proof {
            use_type_invariant(self);
        }
        self.data
    }

    /// The oldest update that waits in the channel, which is thereby taken
    /// out of it; nothing where none waits. Never blocks.
    pub fn try_receive_update(&mut self) -> (update: Option<Update>)
        ensures
            update == old(self)@.next_update(),
            final(self)@ == old(self)@.received(),
    {
        proof {
            use_type_invariant(&*self);
        }
        let mut channel: Option<(Sender<Update>, Receiver<Update>)> = None;
        core::mem::swap(&mut self.channel, &mut channel);
        match channel {
            Some(mut ends) => {
                let update = poll(&mut ends);
                self.channel = Some(ends);
                update
            },
            None => None,
        }
    }

    /// Gives up the consumer's end of the update channel, and with it what
    /// was still queued. A running loop ends at its next attempt to
    /// publish.
    pub fn disconnect(&mut self)
        ensures
            final(self)@ == old(self)@.disconnected(),
    {
        proof {
            use_type_invariant(&*self);
        }
        self.channel = None;
    }

    /// Publishes the outcome of one read cycle and says what the loop does
    /// next.
    ///
    /// A reading replaces the latest reading and is offered to the update
    /// channel; an error is offered to the channel and leaves the latest
    /// reading as it was. A full channel drops the update silently and the
    /// loop goes on. The loop stops only when the consumer's end is gone. A
    /// manager that is not running publishes nothing.
    pub fn publish(&mut self, update: Update) -> (control: LoopControl)
        ensures
            final(self)@ == old(self)@.published(update),
            control == final(self)@.control(),
    {
        proof {
            use_type_invariant(&*self);
        }
        if self.state != AcquisitionState::Running {
            return LoopControl::Stop;
        }
        if let Ok(reading) = &update {
            self.data = *reading;
        }
        let mut channel: Option<(Sender<Update>, Receiver<Update>)> = None;
        core::mem::swap(&mut self.channel, &mut channel);
        match channel {
            Some(mut ends) => {
                let delivery = offer(&mut ends, update);
                self.channel = Some(ends);
                if delivery == Delivery::Disconnected {
                    self.state = AcquisitionState::Terminated;
                    return LoopControl::Stop;
                }
                LoopControl::Continue { pause_ms: self.config.update_interval_ms }
            },
            None => {
                self.state = AcquisitionState::Terminated;
                LoopControl::Stop
            },
        }
    }
}

/// Makes the manager for `config` and starts it with the outcome `probe`
/// of opening a device. A failed start is not an error here: the manager
/// comes back not started and answers every poll with the all-zero reading.
pub fn initialize_sensors(config: SensorConfig, probe: Result<(), SensorError>) -> (manager:
    SensorManager)
    ensures
        exists|fresh: ManagerView| fresh.is_fresh(config) && manager@ == fresh.after_start(probe),
{
    let mut manager = SensorManager::new(config);
    let ghost fresh = manager@;
    let _ = manager.start(probe);
    assert(fresh.is_fresh(config) && manager@ == fresh.after_start(probe));
    manager
}

/// The manager after a run of updates was published, one after the other,
/// with nothing received in between.
pub open spec fn after_updates(before: ManagerView, updates: Seq<Update>) -> ManagerView
    decreases updates.len(),
{
    if updates.len() == 0 {
        before
    } else {
        after_updates(before, updates.drop_last()).published(updates.last())
    }
}

/// The errors of `failures`, each as the update that reports it.
pub open spec fn as_updates(failures: Seq<SensorError>) -> Seq<Update> {
    Seq::new(failures.len(), |i: int| Err(failures[i]))
}

/// The first `count` elements of `items`, or all of them where there are
/// fewer.
pub open spec fn at_most<T>(items: Seq<T>, count: int) -> Seq<T> {
    if items.len() <= count {
        items
    } else {
        items.take(count)
    }
}

/// Backpressure: however many updates a running manager publishes while
/// its consumer does not drain, the channel then holds what fits of what
/// was queued and offered, oldest first. What does not fit is dropped, the
/// loop keeps running, and the latest reading is that of the last update
/// that carried one.
pub proof fn lemma_backpressure(before: ManagerView, updates: Seq<Update>)
    requires
        before.state is Running,
        before.listening,
        before.queue.len() <= UPDATE_CHANNEL_CAPACITY,
    ensures
        after_updates(before, updates).queue == at_most(
            before.queue + updates,
            UPDATE_CHANNEL_CAPACITY as int,
        ),
        after_updates(before, updates).state is Running,
        after_updates(before, updates).listening,
        after_updates(before, updates).config == before.config,
    decreases updates.len(),
{
    if updates.len() == 0 {
        assert(before.queue + updates =~= before.queue);
    } else {
        let earlier = updates.drop_last();
        lemma_backpressure(before, earlier);
        assert(before.queue + updates =~= (before.queue + earlier).push(updates.last()));
        assert(after_updates(before, updates).queue =~= at_most(
            before.queue + updates,
            UPDATE_CHANNEL_CAPACITY as int,
        ));
    }
}

/// First in, first out: the consumer of a manager that holds queued updates
/// gets the oldest one, and the others keep their order.
pub proof fn lemma_oldest_update_first(before: ManagerView)
    requires
        before.listening,
        before.queue.len() > 0,
    ensures
        before.next_update() == Some(before.queue[0]),
        before.received().queue == before.queue.subrange(1, before.queue.len() as int),
        before.received().latest == before.latest,
        before.received().state == before.state,
{
}

/// Last known good: when a running manager publishes a reading and then an
/// error, its latest reading is still that reading.
pub proof fn lemma_error_keeps_last_reading(
    before: ManagerView,
    reading: SensorData,
    error: SensorError,
)
    requires
        before.state is Running,
    ensures
        before.published(Ok(reading)).published(Err(error)).latest == reading,
{
}

/// Zero until the first reading: a fresh manager, started or not, that has
/// seen nothing but failed read cycles still holds the all-zero reading.
pub proof fn lemma_zero_before_first_reading(
    fresh: ManagerView,
    config: SensorConfig,
    probe: Result<(), SensorError>,
    failures: Seq<SensorError>,
)
    requires
        fresh.is_fresh(config),
    ensures
        after_updates(fresh.after_start(probe), as_updates(failures)).latest.is_zeroed(),
    decreases failures.len(),
{
    if failures.len() > 0 {
        lemma_zero_before_first_reading(fresh, config, probe, failures.drop_last());
        assert(as_updates(failures).drop_last() =~= as_updates(failures.drop_last()));
    }
}

/// The loop only moves forward: starting never touches a manager that has
/// left the not-started state, publishing never brings a manager back to
/// it, and a terminated manager stays terminated. The loop ends exactly
/// when it publishes without a consumer.
pub proof fn lemma_states_only_advance(
    before: ManagerView,
    probe: Result<(), SensorError>,
    update: Update,
)
    ensures
        !(before.state is NotStarted) ==> before.after_start(probe) == before,
        before.after_start(probe).state is Running ==> (before.state is Running || (
        before.state is NotStarted && before.config.enabled && probe is Ok)),
        before.published(update).state is NotStarted <==> before.state is NotStarted,
        before.state is Terminated ==> before.published(update) == before,
        before.state is NotStarted ==> before.published(update) == before,
        before.state is Running ==> (before.published(update).state is Terminated
            <==> !before.listening),
{
}

/// The settings are fixed for the manager's lifetime: nothing that the loop
/// or the consumer does changes them, so the pause between reads never
/// changes.
pub proof fn lemma_config_is_fixed(
    before: ManagerView,
    probe: Result<(), SensorError>,
    update: Update,
)
    ensures
        before.after_start(probe).config == before.config,
        before.published(update).config == before.config,
        before.received().config == before.config,
        before.disconnected().config == before.config,
        before.published(update).state is Running ==> before.published(update).control() == (
        LoopControl::Continue { pause_ms: before.config.update_interval_ms }),
{
}

/// An error never touches the latest reading, in any state.
pub proof fn lemma_error_keeps_snapshot(before: ManagerView, error: SensorError)
    ensures
        before.published(Err(error)).latest == before.latest,
{
}

} // verus!
