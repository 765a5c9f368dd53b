//! The state aggregator: one snapshot of the desktop, folded from the
//! changes that the producers report and published whole after each of them.

use crate::config::Config;
use crate::mqtt::Publication;
use crate::topics::{make_state_topic, state_topic};
use vstd::prelude::*;

verus! {

/// Whether the backlight is on.
#[derive(Debug, Clone, Copy, PartialEq, Eq, Structural)]
pub enum PowerState {
    On,
    Off,
}

impl PowerState {
    /// The power state that stands for a switch position.
    pub open spec fn of(power: bool) -> PowerState {
        if power {
            PowerState::On
        } else {
            PowerState::Off
        }
    }

    /// The switch position that a power state stands for.
    pub open spec fn is_on(self) -> bool {
        self == PowerState::On
    }
}

impl Default for PowerState {
    fn default() -> (state: PowerState)
        ensures
            state == PowerState::On,
    {
        PowerState::On
    }
}

impl From<bool> for PowerState {
    fn from(power: bool) -> (state: PowerState) {
        if power {
            PowerState::On
        } else {
            PowerState::Off
        }
    }
}

impl vstd::std_specs::convert::FromSpecImpl<bool> for PowerState {
    open spec fn obeys_from_spec() -> bool {
        true
    }

    open spec fn from_spec(power: bool) -> PowerState {
        PowerState::of(power)
    }
}

impl From<PowerState> for bool {
    fn from(state: PowerState) -> (power: bool) {
        match state {
            PowerState::On => true,
            PowerState::Off => false,
        }
    }
}

impl vstd::std_specs::convert::FromSpecImpl<PowerState> for bool {
    open spec fn obeys_from_spec() -> bool {
        true
    }

    open spec fn from_spec(state: PowerState) -> bool {
        state.is_on()
    }
}

/// The backlight as the hub sees it.
#[derive(Debug, Clone, Copy, PartialEq, Eq, Structural)]
pub struct BacklightState {
    pub power: PowerState,
    pub brightness: u32,
}

/// One report of a producer. A sensor's `value` holds the bits of a
/// single-precision number; nothing here computes with it.
#[derive(Debug, PartialEq, Eq)]
pub enum StateChange {
    Idle(bool),
    Backlight { power: bool, brightness: u32 },
    Sensor { name: String, value: u32 },
}

pub enum StateChangeView {
    Idle(bool),
    Backlight { power: bool, brightness: u32 },
    Sensor { name: Seq<char>, value: u32 },
}

impl View for StateChange {
    type V = StateChangeView;

    open spec fn view(&self) -> StateChangeView {
        match self {
            StateChange::Idle(idle) => StateChangeView::Idle(*idle),
            StateChange::Backlight { power, brightness } => StateChangeView::Backlight {
                power: *power,
                brightness: *brightness,
            },
            StateChange::Sensor { name, value } => StateChangeView::Sensor {
                name: name@,
                value: *value,
            },
        }
    }
}

impl DeepView for StateChange {
    type V = StateChangeView;

    open spec fn deep_view(&self) -> StateChangeView {
        self@
    }
}

impl Clone for StateChange {
    fn clone(&self) -> (copy: StateChange)
        ensures
            copy@ == self@,
    {
        match self {
            StateChange::Idle(idle) => StateChange::Idle(*idle),
            StateChange::Backlight { power, brightness } => StateChange::Backlight {
                power: *power,
                brightness: *brightness,
            },
            StateChange::Sensor { name, value } => StateChange::Sensor {
                name: name.clone(),
                value: *value,
            },
        }
    }
}

/// The latest value of one sensor.
#[derive(Debug, PartialEq, Eq)]
pub struct SensorReading {
    pub name: String,
    pub value: u32,
}

impl View for SensorReading {
    type V = (Seq<char>, u32);

    open spec fn view(&self) -> (Seq<char>, u32) {
        (self.name@, self.value)
    }
}

impl DeepView for SensorReading {
    type V = (Seq<char>, u32);

    open spec fn deep_view(&self) -> (Seq<char>, u32) {
        self@
    }
}

/// No two readings carry the same name.
pub open spec fn distinct_names(readings: Seq<(Seq<char>, u32)>) -> bool {
    forall|i: int, j: int|
        0 <= i < j < readings.len() ==> (#[trigger] readings[i]).0 != (#[trigger] readings[j]).0
}

/// The map that a list of readings stands for: each name with the value
/// that was listed last for it.
pub open spec fn readings_map(readings: Seq<(Seq<char>, u32)>) -> Map<Seq<char>, u32>
    decreases readings.len(),
{
    if readings.len() == 0 {
        Map::empty()
    } else {
        readings_map(readings.drop_last()).insert(readings.last().0, readings.last().1)
    }
}

/// A name that no reading carries is not in the map.
pub proof fn lemma_readings_map_absent(readings: Seq<(Seq<char>, u32)>, name: Seq<char>)
    requires
        forall|i: int| 0 <= i < readings.len() ==> (#[trigger] readings[i]).0 != name,
    ensures
        !readings_map(readings).dom().contains(name),
    decreases readings.len(),
{
    if readings.len() > 0 {
        lemma_readings_map_absent(readings.drop_last(), name);
    }
}

/// Where names are distinct, the map gives each name the value listed with it.
pub proof fn lemma_readings_map_present(readings: Seq<(Seq<char>, u32)>, at: int)
    requires
        distinct_names(readings),
        0 <= at < readings.len(),
    ensures
        readings_map(readings).contains_pair(readings[at].0, readings[at].1),
    decreases readings.len(),
{
    if at < readings.len() - 1 {
        let front = readings.drop_last();
        assert(front[at] == readings[at]);
        assert(readings[at].0 != readings[readings.len() - 1].0);
        lemma_readings_map_present(front, at);
    }
}

/// Replacing the value of a listed name changes the map at that name only.
pub proof fn lemma_readings_map_update(readings: Seq<(Seq<char>, u32)>, at: int, value: u32)
    requires
        distinct_names(readings),
        0 <= at < readings.len(),
    ensures
        distinct_names(readings.update(at, (readings[at].0, value))),
        readings_map(readings.update(at, (readings[at].0, value))) == readings_map(
            readings,
        ).insert(readings[at].0, value),
    decreases readings.len(),
{
    let name = readings[at].0;
    let updated = readings.update(at, (name, value));
    assert(distinct_names(updated)) by {
        assert forall|i: int, j: int| 0 <= i < j < updated.len() implies (#[trigger] updated[i]).0
            != (#[trigger] updated[j]).0 by {
            assert(updated[i].0 == readings[i].0);
            assert(updated[j].0 == readings[j].0);
        }
    }
    let front = readings.drop_last();
    if at == readings.len() - 1 {
        assert(updated.drop_last() == front);
        assert(readings_map(updated) == readings_map(readings).insert(name, value));
    } else {
        assert(front[at] == readings[at]);
        assert(updated.drop_last() == front.update(at, (name, value)));
        assert(updated.last() == readings.last());
        assert(readings[at].0 != readings[readings.len() - 1].0);
        lemma_readings_map_update(front, at, value);
        assert(readings_map(updated) == readings_map(readings).insert(name, value));
    }
}

/// The latest reading of every sensor that has reported, by name.
#[derive(Debug)]
pub struct Sensors {
    readings: Vec<SensorReading>,
}

impl View for Sensors {
    type V = Map<Seq<char>, u32>;

    closed spec fn view(&self) -> Map<Seq<char>, u32> {
        readings_map(self.readings.deep_view())
    }
}

impl Sensors {
    #[verifier::type_invariant]
    spec fn inv(self) -> bool {
        distinct_names(self.readings.deep_view())
    }

    /// No sensor has reported yet.
    pub fn new() -> (sensors: Sensors)
        ensures
            sensors@ == Map::<Seq<char>, u32>::empty(),
    {
        let sensors = Sensors { readings: Vec::new() };
        assert(sensors.readings.deep_view() == Seq::<(Seq<char>, u32)>::empty());
        sensors
    }

    /// The place of the reading called `name`, if there is one.
    fn position(&self, name: &String) -> (at: Option<usize>)
        ensures
            match at {
                Some(i) => i < self.readings.len() && self.readings[i as int].name@ == name@,
                None => forall|i: int|
                    0 <= i < self.readings.len() ==> (#[trigger] self.readings[i]).name@ != name@,
            },
    {
        let mut i: usize = 0;
        while i < self.readings.len()
            invariant
                i <= self.readings.len(),
                forall|j: int| 0 <= j < i ==> (#[trigger] self.readings[j]).name@ != name@,
            decreases self.readings.len() - i,
        {
            if self.readings[i].name == *name {
                return Some(i);
            }
            i += 1;
        }
        None
    }

    /// Sets the reading called `name` to `value`, whether or not the sensor
    /// has reported before.
    pub fn insert(&mut self, name: String, value: u32)
        ensures
            final(self)@ == old(self)@.insert(name@, value),
    {
        proof {
            use_type_invariant(&*self);
        }
        let ghost before = self.readings.deep_view();
        let found = self.position(&name);
        let mut readings: Vec<SensorReading> = Vec::new();
        assert(readings.deep_view() == Seq::<(Seq<char>, u32)>::empty());
        core::mem::swap(&mut self.readings, &mut readings);
        match found {
            Some(at) => {
                proof {
                    lemma_readings_map_update(before, at as int, value);
                }
                readings.set(at, SensorReading { name, value });
                assert(readings.deep_view() == before.update(
                    at as int,
                    (before[at as int].0, value),
                ));
            },
            None => {
                readings.push(SensorReading { name, value });
                assert(readings.deep_view() == before.push((name@, value)));
                assert(readings.deep_view().drop_last() == before);
                assert(distinct_names(readings.deep_view())) by {
                    let after = readings.deep_view();
                    assert forall|i: int, j: int| 0 <= i < j < after.len() implies (
                    #[trigger] after[i]).0 != (#[trigger] after[j]).0 by {
                        assert(after[i] == before[i]);
                        if j < before.len() {
                            assert(after[j] == before[j]);
                        }
                    }
                }
            },
        }
        self.readings = readings;
    }

    /// The latest value of the sensor called `name`, if it has reported.
    pub fn get(&self, name: &str) -> (value: Option<u32>)
        ensures
            match value {
                Some(v) => self@.contains_pair(name@, v),
                None => !self@.dom().contains(name@),
            },
    {
        proof {
            use_type_invariant(self);
        }
        let wanted = name.to_owned();
        match self.position(&wanted) {
            Some(at) => {
                proof {
                    lemma_readings_map_present(self.readings.deep_view(), at as int);
                }
                Some(self.readings[at].value)
            },
            None => {
                proof {
                    lemma_readings_map_absent(self.readings.deep_view(), name@);
                }
                None
            },
        }
    }

    /// The readings one by one: each sensor that has reported is listed
    /// once, with its latest value.
    pub fn readings(&self) -> (list: &Vec<SensorReading>)
        ensures
            distinct_names(list.deep_view()),
            readings_map(list.deep_view()) == self@,
    {
        proof {
            use_type_invariant(self);
        }
        &self.readings
    }
}

impl Clone for Sensors {
    fn clone(&self) -> (copy: Sensors)
        ensures
            copy@ == self@,
    {
        proof {
            use_type_invariant(self);
        }
        let mut readings: Vec<SensorReading> = Vec::new();
        let mut i: usize = 0;
        while i < self.readings.len()
            invariant
                i <= self.readings.len(),
                readings.deep_view() == self.readings.deep_view().subrange(0, i as int),
            decreases self.readings.len() - i,
        {
            let reading = &self.readings[i];
            let ghost before = readings.deep_view();
            readings.push(SensorReading { name: reading.name.clone(), value: reading.value });
            assert(readings.deep_view() == before.push(reading@));
            assert(before.push(reading@) == self.readings.deep_view().subrange(0, i + 1));
            i += 1;
        }
        assert(self.readings.deep_view().subrange(0, i as int) == self.readings.deep_view());
        Sensors { readings }
    }
}

/// The published snapshot of the desktop.
#[derive(Debug)]
pub struct DesktopState {
    pub occupancy: Option<bool>,
    pub backlight_power: PowerState,
    pub backlight_brightness: u32,
    pub sensors: Sensors,
}

pub struct DesktopStateView {
    pub occupancy: Option<bool>,
    pub backlight_power: PowerState,
    pub backlight_brightness: u32,
    pub sensors: Map<Seq<char>, u32>,
}

impl View for DesktopState {
    type V = DesktopStateView;

    open spec fn view(&self) -> DesktopStateView {
        DesktopStateView {
            occupancy: self.occupancy,
            backlight_power: self.backlight_power,
            backlight_brightness: self.backlight_brightness,
            sensors: self.sensors@,
        }
    }
}

/// The snapshot before any producer has reported: occupancy unknown, the
/// backlight on at brightness 0, no sensors.
pub open spec fn initial_state() -> DesktopStateView {
    DesktopStateView {
        occupancy: None,
        backlight_power: PowerState::On,
        backlight_brightness: 0,
        sensors: Map::empty(),
    }
}

/// The snapshot after one change. Occupancy is the negation of idleness, a
/// backlight report overwrites power and brightness together, and a sensor
/// report sets the reading of that name.
pub open spec fn applied(state: DesktopStateView, change: StateChangeView) -> DesktopStateView {
    match change {
        StateChangeView::Idle(idle) => DesktopStateView { occupancy: Some(!idle), ..state },
        StateChangeView::Backlight { power, brightness } => DesktopStateView {
            backlight_power: PowerState::of(power),
            backlight_brightness: brightness,
            ..state
        },
        StateChangeView::Sensor { name, value } => DesktopStateView {
            sensors: state.sensors.insert(name, value),
            ..state
        },
    }
}

/// The snapshot after a run of changes, applied in order.
pub open spec fn folded(state: DesktopStateView, changes: Seq<StateChangeView>) -> DesktopStateView
    decreases changes.len(),
{
    if changes.len() == 0 {
        state
    } else {
        applied(folded(state, changes.drop_last()), changes.last())
    }
}

/// The idleness that was reported last, if any was.
pub open spec fn last_idle(changes: Seq<StateChangeView>) -> Option<bool>
    decreases changes.len(),
{
    if changes.len() == 0 {
        None
    } else {
        match changes.last() {
            StateChangeView::Idle(idle) => Some(idle),
            _ => last_idle(changes.drop_last()),
        }
    }
}

/// The backlight power and brightness that were reported last, if any were.
pub open spec fn last_backlight(changes: Seq<StateChangeView>) -> Option<(bool, u32)>
    decreases changes.len(),
{
    if changes.len() == 0 {
        None
    } else {
        match changes.last() {
            StateChangeView::Backlight { power, brightness } => Some((power, brightness)),
            _ => last_backlight(changes.drop_last()),
        }
    }
}

/// The value that the sensor called `name` reported last, if it reported.
pub open spec fn last_reading(changes: Seq<StateChangeView>, name: Seq<char>) -> Option<u32>
    decreases changes.len(),
{
    if changes.len() == 0 {
        None
    } else {
        match changes.last() {
            StateChangeView::Sensor { name: reported, value } if reported == name => Some(value),
            _ => last_reading(changes.drop_last(), name),
        }
    }
}

/// Whether two changes write the same part of the snapshot: both report
/// idleness, both report the backlight, or both report the same sensor.
pub open spec fn same_field(a: StateChangeView, b: StateChangeView) -> bool {
    match (a, b) {
        (StateChangeView::Idle(_), StateChangeView::Idle(_)) => true,
        (StateChangeView::Backlight { .. }, StateChangeView::Backlight { .. }) => true,
        (StateChangeView::Sensor { name: x, .. }, StateChangeView::Sensor { name: y, .. }) => x
            == y,
        _ => false,
    }
}

/// Applying the same change twice in a row gives the snapshot that applying
/// it once gives: the second publish repeats the first.
pub proof fn lemma_apply_twice(state: DesktopStateView, change: StateChangeView)
    ensures
        applied(applied(state, change), change) == applied(state, change),
{
    let once = applied(state, change);
    let twice = applied(once, change);
    assert(twice.sensors =~= once.sensors);
}

/// Two changes that write different parts of the snapshot can arrive in
/// either order.
pub proof fn lemma_apply_commutes(state: DesktopStateView, a: StateChangeView, b: StateChangeView)
    requires
        !same_field(a, b),
    ensures
        applied(applied(state, a), b) == applied(applied(state, b), a),
{
    let ab = applied(applied(state, a), b);
    let ba = applied(applied(state, b), a);
    assert(ab.sensors =~= ba.sensors);
}

/// After any run of changes each part of the snapshot holds what was
/// reported last for it, and what no change wrote is as it was before.
pub proof fn lemma_fold_keeps_latest(state: DesktopStateView, changes: Seq<StateChangeView>)
    ensures
        folded(state, changes).occupancy == match last_idle(changes) {
            Some(idle) => Some(!idle),
            None => state.occupancy,
        },
        folded(state, changes).backlight_power == match last_backlight(changes) {
            Some(report) => PowerState::of(report.0),
            None => state.backlight_power,
        },
        folded(state, changes).backlight_brightness == match last_backlight(changes) {
            Some(report) => report.1,
            None => state.backlight_brightness,
        },
        forall|name: Seq<char>|
            match #[trigger] last_reading(changes, name) {
                Some(value) => folded(state, changes).sensors.contains_pair(name, value),
                None => folded(state, changes).sensors.dom().contains(name)
                    == state.sensors.dom().contains(name) && folded(state, changes).sensors[name]
                    == state.sensors[name],
            },
    decreases changes.len(),
{
    if changes.len() > 0 {
        lemma_fold_keeps_latest(state, changes.drop_last());
        let before = folded(state, changes.drop_last());
        assert forall|name: Seq<char>|
            match #[trigger] last_reading(changes, name) {
                Some(value) => folded(state, changes).sensors.contains_pair(name, value),
                None => folded(state, changes).sensors.dom().contains(name)
                    == state.sensors.dom().contains(name) && folded(state, changes).sensors[name]
                    == state.sensors[name],
            } by {
            let earlier = last_reading(changes.drop_last(), name);
            assert(match earlier {
                Some(value) => before.sensors.contains_pair(name, value),
                None => before.sensors.dom().contains(name) == state.sensors.dom().contains(name)
                    && before.sensors[name] == state.sensors[name],
            });
        }
    }
}

/// Two runs of changes that agree on what was reported last for every part
/// end in the same snapshot, however their changes were interleaved.
pub proof fn lemma_fold_ignores_interleaving(
    state: DesktopStateView,
    one: Seq<StateChangeView>,
    other: Seq<StateChangeView>,
)
    requires
        last_idle(one) == last_idle(other),
        last_backlight(one) == last_backlight(other),
        forall|name: Seq<char>| last_reading(one, name) == last_reading(other, name),
    ensures
        folded(state, one) == folded(state, other),
{
    lemma_fold_keeps_latest(state, one);
    lemma_fold_keeps_latest(state, other);
    let a = folded(state, one);
    let b = folded(state, other);
    assert forall|name: Seq<char>| #[trigger]
        a.sensors.dom().contains(name) == b.sensors.dom().contains(name) by {
        assert(last_reading(one, name) == last_reading(other, name));
    }
    assert forall|name: Seq<char>| a.sensors.dom().contains(name) implies #[trigger] a.sensors[name]
        == b.sensors[name] by {
        assert(last_reading(one, name) == last_reading(other, name));
    }
    assert(a.sensors =~= b.sensors);
}

/// A reader that picks up the snapshot as it stood after the first `upto`
/// changes and follows the rest ends where a reader of every change ends:
/// what it missed before that snapshot leaves no trace.
pub proof fn lemma_fold_extends(
    state: DesktopStateView,
    changes: Seq<StateChangeView>,
    upto: int,
)
    requires
        0 <= upto <= changes.len(),
    ensures
        folded(state, changes) == folded(
            folded(state, changes.subrange(0, upto)),
            changes.subrange(upto, changes.len() as int),
        ),
    decreases changes.len(),
{
    let rest = changes.subrange(upto, changes.len() as int);
    if upto == changes.len() {
        assert(changes.subrange(0, upto) == changes);
    } else {
        let front = changes.drop_last();
        lemma_fold_extends(state, front, upto);
        assert(front.subrange(0, upto) == changes.subrange(0, upto));
        assert(front.subrange(upto, front.len() as int) == rest.drop_last());
        assert(rest.last() == changes.last());
    }
}

impl Default for DesktopState {
    fn default() -> (state: DesktopState)
        ensures
            state@ == initial_state(),
    {
        DesktopState {
            occupancy: None,
            backlight_power: PowerState::On,
            backlight_brightness: 0,
            sensors: Sensors::new(),
        }
    }
}

impl Clone for DesktopState {
    fn clone(&self) -> (copy: DesktopState)
        ensures
            copy@ == self@,
    {
        DesktopState {
            occupancy: self.occupancy,
            backlight_power: self.backlight_power,
            backlight_brightness: self.backlight_brightness,
            sensors: self.sensors.clone(),
        }
    }
}

impl DesktopState {
    /// Folds one change into the snapshot.
    pub fn apply(&mut self, change: StateChange)
        ensures
            final(self)@ == applied(old(self)@, change@),
    {
        match change {
            StateChange::Idle(idle) => {
                self.occupancy = Some(!idle);
            },
            StateChange::Backlight { power, brightness } => {
                self.backlight_brightness = brightness;
                self.backlight_power = if power {
                    PowerState::On
                } else {
                    PowerState::Off
                };
            },
            StateChange::Sensor { name, value } => {
                self.sensors.insert(name, value);
            },
        }
    }
}

/// The aggregator: the one owner of the snapshot.
#[derive(Debug)]
pub struct State {
    topic: String,
    snapshot: DesktopState,
}

impl State {
    /// The topic every snapshot is published on.
    pub closed spec fn topic(&self) -> Seq<char> {
        self.topic@
    }

    /// The snapshot as it stands.
    pub closed spec fn snapshot(&self) -> DesktopStateView {
        self.snapshot@
    }

    /// An aggregator for the configured entity, holding the default
    /// snapshot.
    pub fn new(config: &Config) -> (state: State)
        ensures
            state.topic() == state_topic(config.hass.entity_id@),
            state.snapshot() == initial_state(),
    {
        State {
            topic: make_state_topic(config.hass.entity_id.as_str()),
            snapshot: DesktopState::default(),
        }
    }

    /// The snapshot as it stands.
    pub fn state(&self) -> (state: &DesktopState)
        ensures
            state@ == self.snapshot(),
    {
        &self.snapshot
    }

    /// The whole snapshot, to be published retained on the state topic.
    pub fn publish(&self) -> (publication: Publication<DesktopState>)
        ensures
            publication.topic@ == self.topic(),
            publication.payload@ == self.snapshot(),
    {
        Publication { topic: self.topic.clone(), payload: self.snapshot.clone() }
    }

    /// Folds one change into the snapshot and gives the publish that
    /// follows it: always the whole snapshot, on the state topic.
    pub fn handle(&mut self, change: StateChange) -> (publication: Publication<DesktopState>)
        ensures
            final(self).topic() == old(self).topic(),
            final(self).snapshot() == applied(old(self).snapshot(), change@),
            publication.topic@ == old(self).topic(),
            publication.payload@ == final(self).snapshot(),
    {
        self.snapshot.apply(change);
        self.publish()
    }

    /// Replays a finished queue of changes: one publish of the snapshot as
    /// it stands, then one after each change, in order.
    #[verifier::loop_isolation(false)]
    pub fn run(&mut self, changes: Vec<StateChange>) -> (publications: Vec<
        Publication<DesktopState>,
    >)
        ensures
            final(self).topic() == old(self).topic(),
            final(self).snapshot() == folded(old(self).snapshot(), changes.deep_view()),
            publications.len() == changes.len() + 1,
            forall|i: int|
                0 <= i < publications.len() ==> (#[trigger] publications[i]).topic@ == old(
                    self,
                ).topic(),
            forall|i: int|
                0 <= i < publications.len() ==> (#[trigger] publications[i]).payload@ == folded(
                    old(self).snapshot(),
                    changes.deep_view().subrange(0, i),
                ),
    {
        let ghost start = self.snapshot();
        let ghost topic = self.topic();
        let ghost items = changes@;
        let ghost all = changes.deep_view();
        let mut publications: Vec<Publication<DesktopState>> = Vec::new();
        publications.push(self.publish());
        assert(all.subrange(0, 0) == Seq::<StateChangeView>::empty());
        for change in it: changes
            invariant
                it.seq() == items,
                all == Seq::new(items.len(), |k: int| items[k]@),
                self.topic() == topic,
                self.snapshot() == folded(start, all.subrange(0, it.index() as int)),
                publications.len() == it.index() + 1,
                forall|i: int|
                    0 <= i < publications.len() ==> (#[trigger] publications[i]).topic@ == topic,
                forall|i: int|
                    0 <= i < publications.len() ==> (#[trigger] publications[i]).payload@
                        == folded(start, all.subrange(0, i)),
        {
            let ghost at = it.index() as int;
            assert(change@ == all[at]);
            assert(all.subrange(0, at + 1).drop_last() == all.subrange(0, at));
            assert(all.subrange(0, at + 1).last() == all[at]);
            let publication = self.handle(change);
            publications.push(publication);
        }
        assert(all.subrange(0, all.len() as int) == all);
        publications
    }
}

} // verus!
