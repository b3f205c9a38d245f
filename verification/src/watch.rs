//! The device watch stream.
//!
//! A watch polls the plugin for its devices at a fixed interval and sends the
//! list to its peer whenever it differs from the list sent last. A failed
//! enumeration is always sent, and is forgotten at once: the list that follows
//! it is sent whatever it holds. The watch ends when its peer is gone.
//!
//! [`DeviceWatch`] decides; its caller acts. The caller starts with
//! [`WatchEvent::Start`], performs each [`WatchAction`] it is given and hands
//! back the event that tells how the action ended.

use crate::api::ListAndWatchResponse;
use crate::device::{clone_devices, same_devices, Device, DeviceView};
use crate::status::Status;
use std::time::Duration;
use vstd::prelude::*;

verus! {

/// What happened outside the watch.
#[derive(Debug)]
pub enum WatchEvent {
    /// The watch is asked to begin.
    Start,
    /// The channel to the peer was looked at.
    ChannelChecked { closed: bool },
    /// The plugin has enumerated its devices, or failed to.
    Polled(Result<Vec<Device>, Status>),
    /// An item was handed to the channel, or the channel refused it.
    Sent { delivered: bool },
    /// The poll interval has passed.
    Woke,
}

/// What the watch asks its caller to do.
#[derive(Debug)]
pub enum WatchAction {
    /// See whether the channel to the peer is closed; answer with
    /// `ChannelChecked`.
    CheckChannel,
    /// Ask the plugin for its devices; answer with `Polled`.
    Poll,
    /// Send this item to the peer; answer with `Sent`.
    Send(Result<ListAndWatchResponse, Status>),
    /// Wait for this long; answer with `Woke`.
    Sleep(Duration),
    /// End the watch.
    Stop,
}

/// How many items a watch stream may hold for a peer that is slow to read.
/// A watch waits when its stream is full.
pub const WATCH_CHANNEL_CAPACITY: usize = 128;

/// What one enumeration found: the devices, or a failure.
pub type Snapshot = Result<Seq<DeviceView>, Status>;

/// What a watch knows.
pub struct WatchState {
    /// The device list sent last, unless a failure was sent after it.
    pub last_sent: Option<Seq<DeviceView>>,
    /// Whether the watch has ended.
    pub stopped: bool,
}

/// What `polled` found.
pub open spec fn snapshot_of(polled: Result<Vec<Device>, Status>) -> Snapshot {
    match polled {
        Ok(devices) => Ok(devices.deep_view()),
        Err(status) => Err(status),
    }
}

/// The stream item that carries `polled`.
pub open spec fn item_of(polled: Result<Vec<Device>, Status>) -> Result<
    ListAndWatchResponse,
    Status,
> {
    match polled {
        Ok(devices) => Ok(ListAndWatchResponse { devices }),
        Err(status) => Err(status),
    }
}

/// Whether two snapshots are equal: both are device lists, and the lists say
/// the same. A failure equals nothing, not even itself.
pub open spec fn same_snapshot(left: Snapshot, right: Snapshot) -> bool {
    left is Ok && right is Ok && left->Ok_0 == right->Ok_0
}

/// Whether a snapshot is sent, given the device list that the watch
/// remembers: a failure always, a device list unless it is the one
/// remembered.
pub open spec fn is_news(last_sent: Option<Seq<DeviceView>>, seen: Snapshot) -> bool {
    match seen {
        Ok(devices) => last_sent != Some(devices),
        Err(_) => true,
    }
}

/// What the watch remembers once `seen` was sent.
pub open spec fn remembered(seen: Snapshot) -> Option<Seq<DeviceView>> {
    match seen {
        Ok(devices) => Some(devices),
        Err(_) => None,
    }
}

/// The state of a watch with the given poll interval after `event`, and the
/// action the event calls for.
pub open spec fn watch_next(state: WatchState, interval: Duration, event: WatchEvent) -> (
    WatchState,
    WatchAction,
) {
    let ended = WatchState { last_sent: state.last_sent, stopped: true };
    if state.stopped {
        (state, WatchAction::Stop)
    } else {
        match event {
            WatchEvent::Start | WatchEvent::Woke => (state, WatchAction::CheckChannel),
            WatchEvent::ChannelChecked { closed } => if closed {
                (ended, WatchAction::Stop)
            } else {
                (state, WatchAction::Poll)
            },
            WatchEvent::Polled(polled) => if is_news(state.last_sent, snapshot_of(polled)) {
                (
                    WatchState { last_sent: remembered(snapshot_of(polled)), stopped: false },
                    WatchAction::Send(item_of(polled)),
                )
            } else {
                (state, WatchAction::Sleep(interval))
            },
            WatchEvent::Sent { delivered } => if delivered {
                (state, WatchAction::Sleep(interval))
            } else {
                (ended, WatchAction::Stop)
            },
        }
    }
}

/// One device watch stream: what it sent last, and whether it has ended.
#[derive(Debug)]
pub struct DeviceWatch {
    interval: Duration,
    last_sent: Option<Vec<Device>>,
    stopped: bool,
}

impl View for DeviceWatch {
    type V = WatchState;

    closed spec fn view(&self) -> WatchState {
        WatchState {
            last_sent: match self.last_sent {
                Some(devices) => Some(devices.deep_view()),
                None => None,
            },
            stopped: self.stopped,
        }
    }
}

impl DeviceWatch {
    /// The time between two polls.
    pub closed spec fn interval(&self) -> Duration {
        self.interval
    }

    /// A watch that has sent nothing yet.
    pub fn new(interval: Duration) -> (watch: DeviceWatch)
        ensures
            watch@ == (WatchState { last_sent: None, stopped: false }),
            watch.interval() == interval,
    {
        DeviceWatch { interval, last_sent: None, stopped: false }
    }

    /// Whether the watch has ended.
    pub fn is_stopped(&self) -> (stopped: bool)
        ensures
            stopped == self@.stopped,
    {
        self.stopped
    }

    /// Takes in `event` and returns what to do next.
    ///
    /// Each event is answered for itself: the start and the end of a sleep
    /// with a look at the channel, an open channel with a poll, a poll with
    /// the item to send or with a sleep, a delivery with a sleep. A closed
    /// channel or a refused item ends the watch, and a watch that has ended
    /// answers every event with `Stop`.
    pub fn step(&mut self, event: WatchEvent) -> (action: WatchAction)
        ensures
            (final(self)@, action) == watch_next(old(self)@, old(self).interval(), event),
            final(self).interval() == old(self).interval(),
    {
        if self.stopped {
            return WatchAction::Stop;
        }
        match event {
            WatchEvent::Start | WatchEvent::Woke => WatchAction::CheckChannel,
            WatchEvent::ChannelChecked { closed } => {
                if closed {
                    self.stopped = true;
                    WatchAction::Stop
                } else {
                    WatchAction::Poll
                }
            },
            WatchEvent::Polled(Err(status)) => {
                self.last_sent = None;
                WatchAction::Send(Err(status))
            },
            WatchEvent::Polled(Ok(devices)) => {
                let unchanged = match &self.last_sent {
                    Some(last) => same_devices(last, &devices),
                    None => false,
                };
                if unchanged {
                    WatchAction::Sleep(self.interval)
                } else {
                    self.last_sent = Some(clone_devices(&devices));
                    WatchAction::Send(Ok(ListAndWatchResponse { devices }))
                }
            },
            WatchEvent::Sent { delivered } => {
                if delivered {
                    WatchAction::Sleep(self.interval)
                } else {
                    self.stopped = true;
                    WatchAction::Stop
                }
            },
        }
    }
}

/// What a fresh watch remembers after it has seen `polls`, one after the
/// other.
pub open spec fn last_sent_after(polls: Seq<Snapshot>) -> Option<Seq<DeviceView>>
    decreases polls.len(),
{
    if polls.len() == 0 {
        None
    } else {
        let before = last_sent_after(polls.drop_last());
        if is_news(before, polls.last()) {
            remembered(polls.last())
        } else {
            before
        }
    }
}

/// The items a fresh watch sends when it sees `polls`, one after the other.
pub open spec fn stream_of(polls: Seq<Snapshot>) -> Seq<Snapshot>
    decreases polls.len(),
{
    if polls.len() == 0 {
        Seq::empty()
    } else {
        let sent = stream_of(polls.drop_last());
        if is_news(last_sent_after(polls.drop_last()), polls.last()) {
            sent.push(polls.last())
        } else {
            sent
        }
    }
}

/// The first poll of a watch is sent, whatever it found.
pub proof fn law_first_poll_is_sent(polls: Seq<Snapshot>)
    requires
        polls.len() > 0,
    ensures
        stream_of(polls).len() > 0,
        stream_of(polls).first() == polls.first(),
    decreases polls.len(),
{
    let before = polls.drop_last();
    if before.len() == 0 {
        assert(stream_of(before) =~= Seq::empty());
    } else {
        law_first_poll_is_sent(before);
    }
}

/// What a watch remembers is the item it sent last: nothing before the first
/// item and after a failure, else the device list of that item.
pub proof fn law_watch_remembers_last_sent(polls: Seq<Snapshot>)
    ensures
        last_sent_after(polls) == if stream_of(polls).len() == 0 {
            None
        } else {
            remembered(stream_of(polls).last())
        },
    decreases polls.len(),
{
    if polls.len() > 0 {
        law_watch_remembers_last_sent(polls.drop_last());
    }
}

/// A poll result is sent if and only if it is a failure or differs from the
/// item sent last; and the stream grows by nothing else.
pub proof fn law_sent_iff_failed_or_changed(polls: Seq<Snapshot>, seen: Snapshot)
    ensures
        stream_of(polls.push(seen)) == if seen is Err || stream_of(polls).len() == 0
            || !same_snapshot(stream_of(polls).last(), seen) {
            stream_of(polls).push(seen)
        } else {
            stream_of(polls)
        },
{
    assert(polls.push(seen).drop_last() =~= polls);
    law_watch_remembers_last_sent(polls);
}

/// No item of the stream equals the item before it.
pub proof fn law_stream_never_repeats(polls: Seq<Snapshot>, i: int)
    requires
        0 < i < stream_of(polls).len(),
    ensures
        !same_snapshot(stream_of(polls)[i - 1], stream_of(polls)[i]),
    decreases polls.len(),
{
    let before = polls.drop_last();
    let sent = stream_of(before);
    if i < sent.len() {
        law_stream_never_repeats(before, i);
    } else {
        law_watch_remembers_last_sent(before);
    }
}

/// A running watch answers a poll as the stream says. If it remembers what a
/// fresh watch remembers after `polls`, it sends the next poll exactly if the
/// stream grows by it and sleeps if not, and it then remembers what a fresh
/// watch remembers after all of them.
pub proof fn law_watch_follows_stream(
    state: WatchState,
    interval: Duration,
    polls: Seq<Snapshot>,
    polled: Result<Vec<Device>, Status>,
)
    requires
        !state.stopped,
        state.last_sent == last_sent_after(polls),
    ensures
        ({
            let seen = snapshot_of(polled);
            let (next, action) = watch_next(state, interval, WatchEvent::Polled(polled));
            &&& !next.stopped
            &&& next.last_sent == last_sent_after(polls.push(seen))
            &&& action == if stream_of(polls.push(seen)) == stream_of(polls).push(seen) {
                WatchAction::Send(item_of(polled))
            } else {
                WatchAction::Sleep(interval)
            }
            &&& stream_of(polls.push(seen)) == stream_of(polls).push(seen) || stream_of(
                polls.push(seen),
            ) == stream_of(polls)
        }),
{
    let seen = snapshot_of(polled);
    assert(polls.push(seen).drop_last() =~= polls);
    assert(stream_of(polls).push(seen).len() != stream_of(polls).len());
}

/// Only a poll changes what a watch remembers.
pub proof fn law_only_polls_change_memory(state: WatchState, interval: Duration, event: WatchEvent)
    requires
        !(event is Polled),
    ensures
        watch_next(state, interval, event).0.last_sent == state.last_sent,
{
}

/// A watch that has ended stays so and asks for nothing more.
pub proof fn law_stopped_is_final(state: WatchState, interval: Duration, event: WatchEvent)
    requires
        state.stopped,
    ensures
        watch_next(state, interval, event) == (state, WatchAction::Stop),
{
}

/// A watch ends only when its channel is found closed or refuses an item.
pub proof fn law_stops_only_without_peer(state: WatchState, interval: Duration, event: WatchEvent)
    requires
        !state.stopped,
    ensures
        watch_next(state, interval, event).0.stopped <==> (event matches WatchEvent::ChannelChecked {
            closed: true,
        }) || (event matches WatchEvent::Sent { delivered: false }),
        watch_next(state, interval, event).1 is Stop <==> watch_next(
            state,
            interval,
            event,
        ).0.stopped,
{
}

} // verus!
