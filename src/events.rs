//! Events carried by clickable regions, the region sets that a render
//! produces, and the navigation state.

use vstd::prelude::*;
use crate::geometry::{Position, Rect};
use crate::keyboard::KeyboardEvent;
use crate::wifi::WifiEvent;

verus! {

/// Navigation intents, handled by the dispatcher itself.
#[derive(Debug, Clone, Copy, PartialEq, Eq, Structural)]
pub enum CoreEvent {
    GoBackToHomepage,
    LaunchApp(usize),
}

/// The payload of a clickable region: a navigation intent, a key of the
/// virtual keyboard, or an event of one screen. Each screen accepts only its
/// own kind and ignores the others.
#[derive(Debug, Clone, Copy, PartialEq, Eq, Structural)]
pub enum AppEvent {
    Core(CoreEvent),
    Keyboard(KeyboardEvent),
    Wifi(WifiEvent),
}

/// A rectangle of the current frame and the event that a press inside it
/// dispatches.
#[derive(Debug, Clone, Copy, PartialEq, Eq, Structural)]
pub struct ClickableArea(pub Rect, pub AppEvent);

/// What a render asks of the next tick: wait for a touch on one of the
/// regions, or dispatch an event at once.
#[derive(Debug, Clone, PartialEq, Eq)]
pub enum EventType {
    List(Vec<ClickableArea>),
    Auto(AppEvent),
}

impl Default for EventType {
    fn default() -> (r: Self)
        ensures
            r matches EventType::List(v) && v@.len() == 0,
    {
        EventType::List(Vec::new())
    }
}

/// `ev` waits for a touch on exactly the regions `regions`, in that order.
pub open spec fn lists(ev: EventType, regions: Seq<ClickableArea>) -> bool {
    ev matches EventType::List(v) && v@ == regions
}

/// `ev` dispatches `auto` at once when there is one, and otherwise waits
/// for a touch on exactly `regions`.
pub open spec fn events_match(ev: EventType, auto: Option<AppEvent>, regions: Seq<ClickableArea>) -> bool {
    match auto {
        Some(e) => ev == EventType::Auto(e),
        None => lists(ev, regions),
    }
}

/// The index of the first region containing `p`, if any.
pub open spec fn hit_of(areas: Seq<ClickableArea>, p: Position) -> Option<usize> {
    if exists|i: usize| is_first_hit(areas, p, Some(i)) {
        Some(choose|i: usize| is_first_hit(areas, p, Some(i)))
    } else {
        None
    }
}

/// There is exactly one first hit.
pub proof fn lemma_first_hit_unique(areas: Seq<ClickableArea>, p: Position, hit: Option<usize>)
    requires
        is_first_hit(areas, p, hit),
    ensures
        hit == hit_of(areas, p),
{
    match hit {
        Some(i) => {
            let j = choose|j: usize| is_first_hit(areas, p, Some(j));
            if j < i {
                assert(areas[j as int].0.spec_contains(p));
            } else if i < j {
                assert(areas[i as int].0.spec_contains(p));
            }
        },
        None => {
            if exists|i: usize| is_first_hit(areas, p, Some(i)) {
                let j = choose|j: usize| is_first_hit(areas, p, Some(j));
                assert(areas[j as int].0.spec_contains(p));
            }
        },
    }
}

/// The single source of navigation truth.
#[derive(Debug, Clone, Copy, PartialEq, Eq, Structural)]
pub enum PhoneState {
    Homepage,
    InApp(usize),
}

/// `hit` is the index of the first region containing `p`, or `None` when no
/// region contains it.
pub open spec fn is_first_hit(areas: Seq<ClickableArea>, p: Position, hit: Option<usize>) -> bool {
    match hit {
        Some(i) => {
            &&& i < areas.len()
            &&& areas[i as int].0.spec_contains(p)
            &&& forall|j: int| 0 <= j < i ==> !(#[trigger] areas[j].0.spec_contains(p))
        },
        None => forall|j: int| 0 <= j < areas.len() ==> !(#[trigger] areas[j].0.spec_contains(p)),
    }
}

/// Finds the first region, in the order produced, that contains `p`.
pub fn first_hit(areas: &Vec<ClickableArea>, p: Position) -> (hit: Option<usize>)
    ensures
        is_first_hit(areas@, p, hit),
        hit == hit_of(areas@, p),
{
    let hit = scan_regions(areas, p);
    proof {
        lemma_first_hit_unique(areas@, p, hit);
    }
    hit
}

fn scan_regions(areas: &Vec<ClickableArea>, p: Position) -> (hit: Option<usize>)
    ensures
        is_first_hit(areas@, p, hit),
{
    let mut i: usize = 0;
    while i < areas.len()
        invariant
            i <= areas@.len(),
            forall|j: int| 0 <= j < i ==> !(#[trigger] areas@[j].0.spec_contains(p)),
        decreases areas.len() - i,
    {
        if areas[i].0.contains(p) {
            return Some(i);
        }
        i = i + 1;
    }
    None
}

} // verus!
