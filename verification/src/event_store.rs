//! The catalogue of events and which of them a player may join.

use vstd::prelude::*;
use crate::text::{concat3, owned, views};

verus! {

/// The remote index: the addresses of the active events.
#[derive(Clone, Debug, PartialEq, Eq)]
pub struct EventIndex {
    pub active_events: Vec<String>,
}

/// A file an event needs, with where it goes and its expected SHA-256.
#[derive(Clone, Debug, PartialEq, Eq)]
pub struct Asset {
    pub id: String,
    pub url: String,
    pub sha256: String,
    pub path: String,
}

/// The mod loader an event runs on.
#[derive(Clone, Copy, Debug, PartialEq, Eq, Structural)]
pub enum ModLoader {
    Fabric,
    Forge,
    Vanilla,
}

/// How far an event's files are on this machine.
#[derive(Clone, Copy, Debug, PartialEq, Eq, Structural)]
pub enum EventStatus {
    NotInstalled,
    Outdated,
    Ready,
}

/// An event as published by the organisers.
#[derive(Clone, Debug, PartialEq, Eq)]
pub struct Event {
    pub id: String,
    pub name: String,
    pub description: String,
    pub image_url: String,
    pub minecraft_version: String,
    pub modloader: ModLoader,
    pub modloader_version: String,
    pub server_ip: String,
    pub whitelist: Vec<String>,
    pub assets: Vec<Asset>,
}

/// An event together with its status on this machine.
#[derive(Clone, Debug, PartialEq, Eq)]
pub struct EventDTO {
    pub event: Event,
    pub status: EventStatus,
}

/// Errors of the event catalogue.
#[derive(Clone, Debug, PartialEq, Eq)]
pub enum EventError {
    FetchFailed(String),
    ParseFailed,
    EventNotFound(String),
}

impl EventError {
    /// The text that describes the error.
    pub open spec fn spec_message(&self) -> Seq<char> {
        match self {
            EventError::FetchFailed(e) => "Fetch has failed: "@ + e@,
            EventError::ParseFailed => "Parse has failed"@,
            EventError::EventNotFound(id) => "Event ["@ + id@ + "] was not found"@,
        }
    }

    /// Renders the error as text.
    pub fn message(&self) -> (m: String)
        ensures
            m@ == self.spec_message(),
    {
        match self {
            EventError::FetchFailed(e) => crate::text::concat2("Fetch has failed: ", e.as_str()),
            EventError::ParseFailed => owned("Parse has failed"),
            EventError::EventNotFound(id) => concat3("Event [", id.as_str(), "] was not found"),
        }
    }
}

/// Whether the player `uuid` is on the event's whitelist.
pub open spec fn whitelisted(e: Event, uuid: Seq<char>) -> bool {
    views(e.whitelist@).contains(uuid)
}

/// The events of `events` open to `uuid`, in their order.
pub open spec fn open_to(events: Seq<Event>, uuid: Seq<char>) -> Seq<Event>
    decreases events.len(),
{
    if events.len() == 0 {
        Seq::empty()
    } else {
        let rest = open_to(events.drop_last(), uuid);
        if whitelisted(events.last(), uuid) {
            rest.push(events.last())
        } else {
            rest
        }
    }
}

/// The events kept for a player are exactly the listed events whose
/// whitelist names the player.
pub proof fn lemma_open_to_members(events: Seq<Event>, uuid: Seq<char>, e: Event)
    ensures
        open_to(events, uuid).contains(e) <==> (events.contains(e) && whitelisted(e, uuid)),
    decreases events.len(),
{
    if events.len() > 0 {
        let init = events.drop_last();
        lemma_open_to_members(init, uuid, e);
        let rest = open_to(init, uuid);
        assert(events =~= init.push(events.last()));
        if events.contains(e) && e != events.last() {
            let i = choose|i: int| 0 <= i < events.len() && events[i] == e;
            assert(i < events.len() - 1);
            assert(init[i] == e);
        }
        if init.contains(e) {
            let i = choose|i: int| 0 <= i < init.len() && init[i] == e;
            assert(events[i] == e);
        }
        if whitelisted(events.last(), uuid) {
            assert(rest.push(events.last()).last() == events.last());
            if rest.contains(e) {
                let i = choose|i: int| 0 <= i < rest.len() && rest[i] == e;
                assert(rest.push(events.last())[i] == e);
            }
            if rest.push(events.last()).contains(e) && e != events.last() {
                let i = choose|i: int| 0 <= i < rest.len() + 1 && rest.push(events.last())[i] == e;
                assert(rest[i] == e);
            }
        }
        assert(events.last() == events[events.len() - 1]);
    }
}

/// A player is on an event's whitelist exactly when some entry of the
/// whitelist, at any position, is the player's UUID; so the events kept for
/// a player are the listed events with such an entry.
pub proof fn lemma_whitelisted_any_entry(events: Seq<Event>, e: Event, uuid: Seq<char>)
    ensures
        whitelisted(e, uuid) <==> exists|k: int|
            0 <= k < e.whitelist@.len() && #[trigger] e.whitelist@[k]@ == uuid,
        open_to(events, uuid).contains(e) <==> (events.contains(e) && exists|k: int|
            0 <= k < e.whitelist@.len() && #[trigger] e.whitelist@[k]@ == uuid),
{
    let w = views(e.whitelist@);
    assert(w.len() == e.whitelist@.len());
    if whitelisted(e, uuid) {
        let k = choose|k: int| 0 <= k < w.len() && w[k] == uuid;
        assert(e.whitelist@[k]@ == uuid);
    }
    if exists|k: int| 0 <= k < e.whitelist@.len() && #[trigger] e.whitelist@[k]@ == uuid {
        let k = choose|k: int| 0 <= k < e.whitelist@.len() && #[trigger] e.whitelist@[k]@ == uuid;
        assert(w[k] == uuid);
    }
    lemma_open_to_members(events, uuid, e);
}

/// Whether `uuid` is on the whitelist of `event`.
pub fn is_whitelisted(event: &Event, uuid: &String) -> (b: bool)
    ensures
        b == whitelisted(*event, uuid@),
        b <==> exists|k: int|
            0 <= k < event.whitelist@.len() && #[trigger] event.whitelist@[k]@ == uuid@,
{
    proof {
        lemma_whitelisted_any_entry(Seq::empty(), *event, uuid@);
    }
    let mut i: usize = 0;
    while i < event.whitelist.len()
        invariant
            0 <= i <= event.whitelist@.len(),
            forall|k: int| 0 <= k < i ==> event.whitelist@[k]@ != uuid@,
        decreases event.whitelist@.len() - i,
    {
        if event.whitelist[i] == *uuid {
            assert(views(event.whitelist@)[i as int] == uuid@);
            return true;
        }
        i = i + 1;
    }
    assert forall|k: int| 0 <= k < views(event.whitelist@).len() implies views(event.whitelist@)[k] != uuid@ by {
        assert(views(event.whitelist@)[k] == event.whitelist@[k]@);
    }
    false
}

/// Keeps the events whose whitelist holds `uuid`, in order.
pub fn filter_by_whitelist(events: Vec<Event>, uuid: &String) -> (r: Vec<Event>)
    ensures
        r@ == open_to(events@, uuid@),
        forall|e: Event| #[trigger] r@.contains(e) <==> (events@.contains(e) && exists|k: int|
            0 <= k < e.whitelist@.len() && #[trigger] e.whitelist@[k]@ == uuid@),
{
    let ghost orig = events@;
    let total = events.len();
    let mut rest = events;
    let mut r: Vec<Event> = Vec::new();
    let mut k: usize = 0;
    while rest.len() > 0
        invariant
            k + rest@.len() == orig.len(),
            orig.len() == total,
            rest@ == orig.skip(k as int),
            r@ == open_to(orig.take(k as int), uuid@),
        decreases rest@.len(),
    {
        let e = rest.remove(0);
        proof {
            assert(e == orig[k as int]);
            assert(orig.take(k + 1).drop_last() =~= orig.take(k as int));
            assert(orig.skip(k + 1) =~= orig.skip(k as int).drop_first());
        }
        if is_whitelisted(&e, uuid) {
            r.push(e);
        }
        k = k + 1;
    }
    assert(orig.take(k as int) =~= orig);
    proof {
        assert forall|e: Event| #[trigger] r@.contains(e) <==> (orig.contains(e) && exists|j: int|
            0 <= j < e.whitelist@.len() && #[trigger] e.whitelist@[j]@ == uuid@) by {
            lemma_whitelisted_any_entry(orig, e, uuid@);
        }
    }
    r
}

/// The status an event gets from whether its files are ready.
pub open spec fn status_for(ready: bool) -> EventStatus {
    if ready { EventStatus::Ready } else { EventStatus::NotInstalled }
}

/// `Ready` when the event's files are ready, `NotInstalled` otherwise.
pub fn calculate_status(ready: bool) -> (s: EventStatus)
    ensures
        s == status_for(ready),
{
    if ready { EventStatus::Ready } else { EventStatus::NotInstalled }
}

/// Pairs each event with the status its readiness gives.
pub fn event_dtos(events: Vec<Event>, ready: &Vec<bool>) -> (r: Vec<EventDTO>)
    requires
        events@.len() == ready@.len(),
    ensures
        r@.len() == events@.len(),
        forall|i: int| 0 <= i < r@.len() ==> #[trigger] r@[i] == (EventDTO { event: events@[i], status: status_for(ready@[i]) }),
{
    let ghost orig = events@;
    let total = events.len();
    let mut rest = events;
    let mut r: Vec<EventDTO> = Vec::new();
    let mut k: usize = 0;
    while rest.len() > 0
        invariant
            k + rest@.len() == orig.len(),
            orig.len() == total,
            orig.len() == ready@.len(),
            rest@ == orig.skip(k as int),
            r@.len() == k,
            forall|i: int| 0 <= i < k ==> #[trigger] r@[i] == (EventDTO { event: orig[i], status: status_for(ready@[i]) }),
        decreases rest@.len(),
    {
        let e = rest.remove(0);
        proof {
            assert(e == orig[k as int]);
            assert(orig.skip(k + 1) =~= orig.skip(k as int).drop_first());
        }
        let status = calculate_status(ready[k]);
        r.push(EventDTO { event: e, status });
        k = k + 1;
    }
    r
}

} // verus!
