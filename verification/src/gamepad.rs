//! Hat-switch dpads: some pads report their dpad as two axes (`DPadX`,
//! `DPadY`) instead of buttons. The backend turns each axis change into
//! dpad button presses and releases, emitted only when a direction starts or
//! stops being held, so a held hat never re-triggers "just pressed" and a
//! release is never sent for a direction that was not held.
use vstd::prelude::*;

verus! {

/// The two hat-switch axes.
#[derive(Debug, Clone, Copy, PartialEq, Eq, Structural)]
pub enum HatAxis {
    X,
    Y,
}

/// The dpad directions a hat axis drives.
#[derive(Debug, Clone, Copy, PartialEq, Eq, Structural)]
pub enum DPad {
    Left,
    Right,
    Down,
    Up,
}

/// Which directions of one hat axis are held: past the hat threshold on the
/// negative side, on the positive side.
#[derive(Debug, Clone, Copy, PartialEq, Eq, Structural)]
pub struct HatReading {
    pub negative: bool,
    pub positive: bool,
}

/// A dpad button event of pad `pad`.
#[derive(Debug, Clone, Copy, PartialEq, Eq, Structural)]
pub enum DPadEvent {
    Pressed(u32, DPad),
    Released(u32, DPad),
}

/// The dpad button on the negative side of a hat axis (X: left; Y: down,
/// since +1 is up).
pub open spec fn negative_button(hat: HatAxis) -> DPad {
    match hat {
        HatAxis::X => DPad::Left,
        HatAxis::Y => DPad::Down,
    }
}

/// The dpad button on the positive side of a hat axis.
pub open spec fn positive_button(hat: HatAxis) -> DPad {
    match hat {
        HatAxis::X => DPad::Right,
        HatAxis::Y => DPad::Up,
    }
}

/// The event for one direction: a press when it starts being held, a release
/// when it stops, nothing otherwise.
pub open spec fn edge(pad: u32, button: DPad, held_before: bool, held_now: bool) -> Seq<DPadEvent> {
    if !held_before && held_now {
        seq![DPadEvent::Pressed(pad, button)]
    } else if held_before && !held_now {
        seq![DPadEvent::Released(pad, button)]
    } else {
        Seq::empty()
    }
}

/// The events of a hat axis change: the negative direction's, then the
/// positive direction's.
pub open spec fn spec_hat_transitions(pad: u32, hat: HatAxis, prev: HatReading, now: HatReading) -> Seq<DPadEvent> {
    edge(pad, negative_button(hat), prev.negative, now.negative) + edge(
        pad,
        positive_button(hat),
        prev.positive,
        now.positive,
    )
}

fn push_edge(events: &mut Vec<DPadEvent>, pad: u32, button: DPad, held_before: bool, held_now: bool)
    ensures
        final(events)@ == old(events)@ + edge(pad, button, held_before, held_now),
{
    if !held_before && held_now {
        events.push(DPadEvent::Pressed(pad, button));
    } else if held_before && !held_now {
        events.push(DPadEvent::Released(pad, button));
    }
}

/// The dpad button events for a hat axis of pad `pad` moving from `prev` to
/// `now`.
pub fn hat_transition_events(pad: u32, hat: HatAxis, prev: HatReading, now: HatReading) -> (r: Vec<DPadEvent>)
    ensures
        r@ == spec_hat_transitions(pad, hat, prev, now),
{
    let (negative, positive) = match hat {
        HatAxis::X => (DPad::Left, DPad::Right),
        HatAxis::Y => (DPad::Down, DPad::Up),
    };
    let mut events: Vec<DPadEvent> = Vec::new();
    push_edge(&mut events, pad, negative, prev.negative, now.negative);
    push_edge(&mut events, pad, positive, prev.positive, now.positive);
    assert(events@ =~= spec_hat_transitions(pad, hat, prev, now));
    events
}

/// Presses and releases come only on crossings: a direction held before and
/// after (or idle before and after) produces nothing, a release is only ever
/// sent for a direction that before held, and a press only for one that before not.
pub proof fn law_hat_events_only_on_crossings(pad: u32, hat: HatAxis, prev: HatReading, now: HatReading)
    ensures
        prev == now ==> spec_hat_transitions(pad, hat, prev, now).len() == 0,
        forall|i: int|
            0 <= i < spec_hat_transitions(pad, hat, prev, now).len() ==> match #[trigger] spec_hat_transitions(
                pad,
                hat,
                prev,
                now,
            )[i] {
                DPadEvent::Released(p, b) => p == pad && ((b == negative_button(hat) && prev.negative && !now.negative)
                    || (b == positive_button(hat) && prev.positive && !now.positive)),
                DPadEvent::Pressed(p, b) => p == pad && ((b == negative_button(hat) && !prev.negative && now.negative)
                    || (b == positive_button(hat) && !prev.positive && now.positive)),
            },
{
    let n = edge(pad, negative_button(hat), prev.negative, now.negative);
    let s = spec_hat_transitions(pad, hat, prev, now);
    assert forall|i: int| 0 <= i < s.len() implies match #[trigger] s[i] {
        DPadEvent::Released(p, b) => p == pad && ((b == negative_button(hat) && prev.negative && !now.negative)
            || (b == positive_button(hat) && prev.positive && !now.positive)),
        DPadEvent::Pressed(p, b) => p == pad && ((b == negative_button(hat) && !prev.negative && now.negative)
            || (b == positive_button(hat) && !prev.positive && now.positive)),
    } by {
        if i < n.len() {
            assert(s[i] == n[i]);
        }
    }
}

/// Feeding each reading as the next one's `prev`, a press and its release
/// undo each other: going out and back to the same reading emits, for each
/// direction that changed, exactly one press and one release.
pub proof fn law_out_and_back_balances(pad: u32, hat: HatAxis, a: HatReading, b: HatReading)
    ensures
        spec_hat_transitions(pad, hat, a, b).len() == spec_hat_transitions(pad, hat, b, a).len(),
        forall|i: int|
            0 <= i < spec_hat_transitions(pad, hat, a, b).len() ==> match #[trigger] spec_hat_transitions(
                pad,
                hat,
                a,
                b,
            )[i] {
                DPadEvent::Pressed(p, d) => spec_hat_transitions(pad, hat, b, a)[i] == DPadEvent::Released(p, d),
                DPadEvent::Released(p, d) => spec_hat_transitions(pad, hat, b, a)[i] == DPadEvent::Pressed(p, d),
            },
{
    let n1 = edge(pad, negative_button(hat), a.negative, b.negative);
    let n2 = edge(pad, negative_button(hat), b.negative, a.negative);
    let s1 = spec_hat_transitions(pad, hat, a, b);
    let s2 = spec_hat_transitions(pad, hat, b, a);
    assert forall|i: int| 0 <= i < s1.len() implies match #[trigger] s1[i] {
        DPadEvent::Pressed(p, d) => s2[i] == DPadEvent::Released(p, d),
        DPadEvent::Released(p, d) => s2[i] == DPadEvent::Pressed(p, d),
    } by {
        if i < n1.len() {
            assert(s1[i] == n1[i] && s2[i] == n2[i]);
        } else {
            assert(s1[i] == edge(pad, positive_button(hat), a.positive, b.positive)[i - n1.len()]);
            assert(s2[i] == edge(pad, positive_button(hat), b.positive, a.positive)[i - n2.len()]);
        }
    }
}

/// A reading with no direction held: the state of a hat never seen before.
pub open spec fn centered() -> HatReading {
    HatReading { negative: false, positive: false }
}

/// The last reading of each (pad, axis), as a map.
pub open spec fn readings_map(s: Seq<(u32, HatAxis, HatReading)>) -> Map<(u32, HatAxis), HatReading> {
    Map::new(
        |k: (u32, HatAxis)| exists|i: int| 0 <= i < s.len() && (s[i].0, s[i].1) == k,
        |k: (u32, HatAxis)| s[choose|i: int| 0 <= i < s.len() && (s[i].0, s[i].1) == k].2,
    )
}

/// No (pad, axis) occurs twice.
pub open spec fn hat_keys_distinct(s: Seq<(u32, HatAxis, HatReading)>) -> bool {
    forall|i: int, j: int|
        0 <= i < j < s.len() ==> ((#[trigger] s[i]).0, s[i].1) != ((#[trigger] s[j]).0, s[j].1)
}

/// The last reading seen for (pad, axis): centered if it was never seen.
pub open spec fn last_reading(m: Map<(u32, HatAxis), HatReading>, pad: u32, hat: HatAxis) -> HatReading {
    if m.contains_key((pad, hat)) {
        m[(pad, hat)]
    } else {
        centered()
    }
}

/// Remembers the last reading of every hat axis of every pad, so each new
/// reading yields only the transitions since the last one.
pub struct HatTracker {
    last: Vec<(u32, HatAxis, HatReading)>,
}

impl View for HatTracker {
    type V = Map<(u32, HatAxis), HatReading>;

    closed spec fn view(&self) -> Map<(u32, HatAxis), HatReading> {
        readings_map(self.last@)
    }
}

impl HatTracker {
    #[verifier::type_invariant]
    spec fn distinct(self) -> bool {
        hat_keys_distinct(self.last@)
    }

    /// A tracker that has seen no hat yet.
    pub fn new() -> (r: Self)
        ensures
            r@ == Map::<(u32, HatAxis), HatReading>::empty(),
    {
        let r = HatTracker { last: Vec::new() };
        assert(r@ =~= Map::<(u32, HatAxis), HatReading>::empty());
        r
    }

    /// Record the new reading `now` of `hat` on pad `pad` and return the
    /// dpad events since the previous one (a hat starts centered).
    pub fn update(&mut self, pad: u32, hat: HatAxis, now: HatReading) -> (r: Vec<DPadEvent>)
        ensures
            r@ == spec_hat_transitions(pad, hat, last_reading(old(self)@, pad, hat), now),
            final(self)@ == old(self)@.insert((pad, hat), now),
    {
        proof {
            use_type_invariant(&*self);
        }
        let ghost s = self.last@;
        let mut i: usize = 0;
        while i < self.last.len()
            invariant
                self.last@ == s,
                old(self).last@ == s,
                hat_keys_distinct(s),
                i <= s.len(),
                forall|j: int| 0 <= j < i ==> ((#[trigger] s[j]).0, s[j].1) != (pad, hat),
            decreases s.len() - i,
        {
            let (p, h, prev) = self.last[i];
            if p == pad && h == hat {
                proof {
                    lemma_reading_at(s, i as int);
                    lemma_reading_update(s, i as int, now);
                }
                let events = hat_transition_events(pad, hat, prev, now);
                let mut last: Vec<(u32, HatAxis, HatReading)> = Vec::new();
                std::mem::swap(&mut last, &mut self.last);
                last.set(i, (pad, hat, now));
                self.last = last;
                return events;
            }
            i = i + 1;
        }
        proof {
            lemma_reading_push(s, pad, hat, now);
        }
        let events = hat_transition_events(pad, hat, HatReading { negative: false, positive: false }, now);
        let mut last: Vec<(u32, HatAxis, HatReading)> = Vec::new();
        std::mem::swap(&mut last, &mut self.last);
        last.push((pad, hat, now));
        self.last = last;
        events
    }
}

proof fn lemma_reading_at(s: Seq<(u32, HatAxis, HatReading)>, i: int)
    requires
        hat_keys_distinct(s),
        0 <= i < s.len(),
    ensures
        readings_map(s).contains_key((s[i].0, s[i].1)),
        readings_map(s)[(s[i].0, s[i].1)] == s[i].2,
{
    let k = (s[i].0, s[i].1);
    assert(exists|w: int| 0 <= w < s.len() && (s[w].0, s[w].1) == k);
    let j = choose|w: int| 0 <= w < s.len() && (s[w].0, s[w].1) == k;
    if j < i {
        assert((s[j].0, s[j].1) != (s[i].0, s[i].1));
    } else if j > i {
        assert((s[i].0, s[i].1) != (s[j].0, s[j].1));
    }
}

proof fn lemma_reading_update(s: Seq<(u32, HatAxis, HatReading)>, i: int, now: HatReading)
    requires
        hat_keys_distinct(s),
        0 <= i < s.len(),
    ensures
        hat_keys_distinct(s.update(i, (s[i].0, s[i].1, now))),
        readings_map(s.update(i, (s[i].0, s[i].1, now))) == readings_map(s).insert((s[i].0, s[i].1), now),
{
    let t = s.update(i, (s[i].0, s[i].1, now));
    assert forall|a: int, b: int| 0 <= a < b < t.len() implies ((#[trigger] t[a]).0, t[a].1) != ((#[trigger] t[b]).0, t[b].1) by {
        assert(t[a].0 == s[a].0 && t[a].1 == s[a].1 && t[b].0 == s[b].0 && t[b].1 == s[b].1);
    }
    assert forall|k: (u32, HatAxis)| readings_map(t).contains_key(k) <==> readings_map(s).contains_key(k) by {
        if readings_map(s).contains_key(k) {
            let w = choose|w: int| 0 <= w < s.len() && (s[w].0, s[w].1) == k;
            assert((t[w].0, t[w].1) == k);
        }
        if readings_map(t).contains_key(k) {
            let w = choose|w: int| 0 <= w < t.len() && (t[w].0, t[w].1) == k;
            assert((s[w].0, s[w].1) == k);
        }
    }
    assert forall|k: (u32, HatAxis)| #[trigger] readings_map(t).contains_key(k) implies readings_map(t)[k]
        == readings_map(s).insert((s[i].0, s[i].1), now)[k] by {
        let w = choose|w: int| 0 <= w < t.len() && (t[w].0, t[w].1) == k;
        lemma_reading_at(t, w);
        if w != i {
            lemma_reading_at(s, w);
        }
    }
    assert(readings_map(t) =~= readings_map(s).insert((s[i].0, s[i].1), now));
}

proof fn lemma_reading_push(s: Seq<(u32, HatAxis, HatReading)>, pad: u32, hat: HatAxis, now: HatReading)
    requires
        hat_keys_distinct(s),
        forall|j: int| 0 <= j < s.len() ==> ((#[trigger] s[j]).0, s[j].1) != (pad, hat),
    ensures
        !readings_map(s).contains_key((pad, hat)),
        hat_keys_distinct(s.push((pad, hat, now))),
        readings_map(s.push((pad, hat, now))) == readings_map(s).insert((pad, hat), now),
{
    let t = s.push((pad, hat, now));
    assert forall|a: int, b: int| 0 <= a < b < t.len() implies ((#[trigger] t[a]).0, t[a].1) != ((#[trigger] t[b]).0, t[b].1) by {
        if b == s.len() {
            assert(t[a] == s[a]);
        } else {
            assert(t[a] == s[a] && t[b] == s[b]);
        }
    }
    assert forall|k: (u32, HatAxis)| readings_map(t).contains_key(k) <==> readings_map(s).contains_key(k) || k == (pad, hat) by {
        if readings_map(s).contains_key(k) {
            let w = choose|w: int| 0 <= w < s.len() && (s[w].0, s[w].1) == k;
            assert(t[w] == s[w]);
        }
        if k == (pad, hat) {
            assert((t[s.len() as int].0, t[s.len() as int].1) == k);
        }
        if readings_map(t).contains_key(k) && k != (pad, hat) {
            let w = choose|w: int| 0 <= w < t.len() && (t[w].0, t[w].1) == k;
            assert(w < s.len());
            assert(t[w] == s[w]);
        }
    }
    assert forall|k: (u32, HatAxis)| #[trigger] readings_map(t).contains_key(k) implies readings_map(t)[k]
        == readings_map(s).insert((pad, hat), now)[k] by {
        let w = choose|w: int| 0 <= w < t.len() && (t[w].0, t[w].1) == k;
        lemma_reading_at(t, w);
        if w < s.len() {
            assert(t[w] == s[w]);
            lemma_reading_at(s, w);
        }
    }
    assert(readings_map(t) =~= readings_map(s).insert((pad, hat), now));
}

impl Default for HatTracker {
    fn default() -> (r: Self)
        ensures
            r@ == Map::<(u32, HatAxis), HatReading>::empty(),
    {
        HatTracker::new()
    }
}

/// Readings of different pads and axes are independent: updating one never
/// changes what another last read.
pub proof fn law_hats_are_independent(
    m: Map<(u32, HatAxis), HatReading>,
    pad: u32,
    hat: HatAxis,
    now: HatReading,
    other_pad: u32,
    other_hat: HatAxis,
)
    requires
        (other_pad, other_hat) != (pad, hat),
    ensures
        last_reading(m.insert((pad, hat), now), other_pad, other_hat) == last_reading(m, other_pad, other_hat),
        last_reading(m.insert((pad, hat), now), pad, hat) == now,
{
}

} // verus!
