//! Modulation-matrix routing: the source and destination identifiers, the
//! value slot each one owns, and the bounded list of routing slots.

use vstd::prelude::*;

verus! {

/// Modulation source identifier.
#[derive(Debug, Clone, Copy, PartialEq, Eq, Structural, Hash)]
pub enum ModSource {
    /// First LFO output.
    Lfo1,
    /// Second LFO output.
    Lfo2,
    /// Amplitude envelope output.
    AmpEnvelope,
    /// Filter envelope output.
    FilterEnvelope,
    /// Note velocity (0..1).
    Velocity,
    /// Mod wheel (CC1, 0..1).
    ModWheel,
    /// Channel aftertouch (0..1).
    Aftertouch,
    /// Pitch bend (-1..+1).
    PitchBend,
}

/// Modulation destination identifier.
#[derive(Debug, Clone, Copy, PartialEq, Eq, Structural, Hash)]
pub enum ModDestination {
    /// Oscillator pitch (in semitones).
    Pitch,
    /// Filter cutoff frequency (in octaves).
    FilterCutoff,
    /// Filter resonance.
    FilterResonance,
    /// Output amplitude / volume.
    Amplitude,
    /// Stereo pan position.
    Pan,
    /// Pulse width (for pulse waveform).
    PulseWidth,
    /// FM modulation index.
    FmIndex,
    /// LFO rate.
    LfoRate,
}

/// Number of source slots and of destination slots.
pub const NUM_SLOTS: usize = 8;

/// Maximum number of modulation routings.
pub const MAX_ROUTINGS: usize = 16;

/// Value slot of a source: its position in declaration order.
pub open spec fn source_slot_spec(s: ModSource) -> int {
    match s {
        ModSource::Lfo1 => 0,
        ModSource::Lfo2 => 1,
        ModSource::AmpEnvelope => 2,
        ModSource::FilterEnvelope => 3,
        ModSource::Velocity => 4,
        ModSource::ModWheel => 5,
        ModSource::Aftertouch => 6,
        ModSource::PitchBend => 7,
    }
}

/// Value slot of a destination: its position in declaration order.
pub open spec fn destination_slot_spec(d: ModDestination) -> int {
    match d {
        ModDestination::Pitch => 0,
        ModDestination::FilterCutoff => 1,
        ModDestination::FilterResonance => 2,
        ModDestination::Amplitude => 3,
        ModDestination::Pan => 4,
        ModDestination::PulseWidth => 5,
        ModDestination::FmIndex => 6,
        ModDestination::LfoRate => 7,
    }
}

impl ModSource {
    /// Index of the value slot that holds this source's current value.
    pub fn slot(self) -> (r: usize)
        ensures
            r == source_slot_spec(self),
            r < NUM_SLOTS,
            self == ModSource::Lfo1 ==> r == 0,
            self == ModSource::Lfo2 ==> r == 1,
            self == ModSource::AmpEnvelope ==> r == 2,
            self == ModSource::FilterEnvelope ==> r == 3,
            self == ModSource::Velocity ==> r == 4,
            self == ModSource::ModWheel ==> r == 5,
            self == ModSource::Aftertouch ==> r == 6,
            self == ModSource::PitchBend ==> r == 7,
    {
        match self {
            ModSource::Lfo1 => 0,
            ModSource::Lfo2 => 1,
            ModSource::AmpEnvelope => 2,
            ModSource::FilterEnvelope => 3,
            ModSource::Velocity => 4,
            ModSource::ModWheel => 5,
            ModSource::Aftertouch => 6,
            ModSource::PitchBend => 7,
        }
    }
}

impl ModDestination {
    /// Index of the value slot that accumulates modulation for this destination.
    pub fn slot(self) -> (r: usize)
        ensures
            r == destination_slot_spec(self),
            r < NUM_SLOTS,
            self == ModDestination::Pitch ==> r == 0,
            self == ModDestination::FilterCutoff ==> r == 1,
            self == ModDestination::FilterResonance ==> r == 2,
            self == ModDestination::Amplitude ==> r == 3,
            self == ModDestination::Pan ==> r == 4,
            self == ModDestination::PulseWidth ==> r == 5,
            self == ModDestination::FmIndex ==> r == 6,
            self == ModDestination::LfoRate ==> r == 7,
    {
        match self {
            ModDestination::Pitch => 0,
            ModDestination::FilterCutoff => 1,
            ModDestination::FilterResonance => 2,
            ModDestination::Amplitude => 3,
            ModDestination::Pan => 4,
            ModDestination::PulseWidth => 5,
            ModDestination::FmIndex => 6,
            ModDestination::LfoRate => 7,
        }
    }
}

/// Distinct sources never share a value slot, nor do distinct destinations,
/// and every slot belongs to some source and to some destination.
pub proof fn lemma_slots_are_a_bijection(a: ModSource, b: ModSource, x: ModDestination, y: ModDestination, k: int)
    requires
        0 <= k < NUM_SLOTS,
    ensures
        source_slot_spec(a) == source_slot_spec(b) ==> a == b,
        destination_slot_spec(x) == destination_slot_spec(y) ==> x == y,
        exists|s: ModSource| source_slot_spec(s) == k,
        exists|d: ModDestination| destination_slot_spec(d) == k,
{
    if k == 0 {
        assert(source_slot_spec(ModSource::Lfo1) == k);
        assert(destination_slot_spec(ModDestination::Pitch) == k);
    } else if k == 1 {
        assert(source_slot_spec(ModSource::Lfo2) == k);
        assert(destination_slot_spec(ModDestination::FilterCutoff) == k);
    } else if k == 2 {
        assert(source_slot_spec(ModSource::AmpEnvelope) == k);
        assert(destination_slot_spec(ModDestination::FilterResonance) == k);
    } else if k == 3 {
        assert(source_slot_spec(ModSource::FilterEnvelope) == k);
        assert(destination_slot_spec(ModDestination::Amplitude) == k);
    } else if k == 4 {
        assert(source_slot_spec(ModSource::Velocity) == k);
        assert(destination_slot_spec(ModDestination::Pan) == k);
    } else if k == 5 {
        assert(source_slot_spec(ModSource::ModWheel) == k);
        assert(destination_slot_spec(ModDestination::PulseWidth) == k);
    } else if k == 6 {
        assert(source_slot_spec(ModSource::Aftertouch) == k);
        assert(destination_slot_spec(ModDestination::FmIndex) == k);
    } else {
        assert(source_slot_spec(ModSource::PitchBend) == k);
        assert(destination_slot_spec(ModDestination::LfoRate) == k);
    }
}

/// Ordered routing slots of a modulation matrix; [`RoutingSlots::add`] refuses
/// a routing once [`MAX_ROUTINGS`] are held.
#[derive(Debug, Clone)]
pub struct RoutingSlots<T> {
    items: Vec<T>,
}

impl<T> View for RoutingSlots<T> {
    type V = Seq<T>;

    closed spec fn view(&self) -> Seq<T> {
        self.items@
    }
}

impl<T> RoutingSlots<T> {
    /// An empty list of routings.
    pub fn new() -> (r: Self)
        ensures
            r@ == Seq::<T>::empty(),
    {
        RoutingSlots { items: Vec::new() }
    }

    /// Slots holding exactly `items`, in order (as restored from storage).
    pub fn from_vec(items: Vec<T>) -> (r: Self)
        ensures
            r@ == items@,
    {
        RoutingSlots { items }
    }

    /// Append a routing; returns `false`, leaving the slots unchanged, when
    /// [`MAX_ROUTINGS`] routings are already held.
    pub fn add(&mut self, routing: T) -> (added: bool)
        ensures
            added == (old(self)@.len() < MAX_ROUTINGS),
            added ==> final(self)@ == old(self)@.push(routing),
            !added ==> final(self)@ == old(self)@,
    {
        if self.items.len() >= MAX_ROUTINGS {
            return false;
        }
        self.items.push(routing);
        true
    }

    /// Remove the routing at `index`, shifting later ones down; an index past
    /// the end changes nothing.
    pub fn remove(&mut self, index: usize)
        ensures
            index < old(self)@.len() ==> final(self)@ == old(self)@.remove(index as int),
            index >= old(self)@.len() ==> final(self)@ == old(self)@,
    {
        if index < self.items.len() {
            self.items.remove(index);
        }
    }

    /// Remove every routing.
    pub fn clear(&mut self)
        ensures
            final(self)@ == Seq::<T>::empty(),
    {
        self.items.clear();
    }

    /// Number of routings held.
    pub fn len(&self) -> (r: usize)
        ensures
            r == self@.len(),
    {
        self.items.len()
    }

    /// The routings, in the order they were added.
    pub fn items(&self) -> (r: &Vec<T>)
        ensures
            r@ == self@,
    {
        &self.items
    }

    /// The routing at `index`, to be changed in place.
    pub fn get_mut(&mut self, index: usize) -> (r: &mut T)
        requires
            index < old(self)@.len(),
        ensures
            *r == old(self)@[index as int],
            final(self)@ == old(self)@.update(index as int, *final(r)),
    {
        &mut self.items[index]
    }
}

/// Once [`MAX_ROUTINGS`] routings are held, adding refuses and nothing
/// changes; below that, adding one grows the list by exactly one.
pub proof fn lemma_add_respects_capacity<T>(before: Seq<T>, after: Seq<T>, routing: T, added: bool)
    requires
        added == (before.len() < MAX_ROUTINGS),
        added ==> after == before.push(routing),
        !added ==> after == before,
    ensures
        before.len() <= MAX_ROUTINGS ==> after.len() <= MAX_ROUTINGS,
        added ==> after.len() == before.len() + 1 && after.last() == routing,
        !added ==> after.len() == before.len(),
{
}

} // verus!
