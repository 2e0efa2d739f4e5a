//! The slots that hold the tracks of a board.

use vstd::prelude::*;
use crate::launchpad::Button;
use crate::tracks::{Track, TrackView};

verus! {

/// The tracks of a board, each in the slot at the position of the button
/// that it is bound to.  The slots from the last track on are left out.
pub(crate) struct Registry<B: Button> {
    slots: Vec<Option<Track>>,
    buttons: std::marker::PhantomData<B>,
}

impl<B: Button> Registry<B> {
    /// The tracks, each under the button that it is bound to.
    pub(crate) closed spec fn view(&self) -> Map<B, TrackView> {
        Map::new(
            |button: B|
                button.is_button() && button.position() < self.slots@.len()
                    && self.slots@[button.position() as int] is Some,
            |button: B| self.slots@[button.position() as int].unwrap()@,
        )
    }

    /// The slots with no track in them.
    pub(crate) fn new() -> (registry: Self)
        ensures
            registry.view() == Map::<B, TrackView>::empty(),
    {
        Registry { slots: Vec::with_capacity(B::TOTAL), buttons: std::marker::PhantomData }
    }

    /// Puts a track into the slot of a button.
    pub(crate) fn put(&mut self, button: B, track: Track)
        requires
            button.is_button(),
        ensures
            final(self).view() == old(self).view().insert(button, track@),
    {
        let id: usize = button.to_id();
        while self.slots.len() <= id
            invariant
                id == button.position(),
                old(self).slots@.len() <= self.slots@.len(),
                forall|i: int| 0 <= i < old(self).slots@.len() ==> self.slots@[i] == old(self).slots@[i],
                forall|i: int| old(self).slots@.len() <= i < self.slots@.len() ==> self.slots@[i] is None,
            decreases id + 1 - self.slots.len(),
        {
            self.slots.push(None);
        }
        self.slots[id] = Some(track);
        proof {
            assert forall|other: B|
                other.is_button() && other.position() == button.position() implies other
                == button by {
                other.lemma_position_identifies(&button);
            }
        }
    }

    /// Takes the track of a button out of its slot.
    pub(crate) fn take(&mut self, button: &B) -> (track: Option<Track>)
        ensures
            final(self).view() == old(self).view().remove(*button),
            match track {
                Some(t) => old(self).view().contains_key(*button) && old(self).view()[*button]
                    == t@ && button.is_button(),
                None => !old(self).view().contains_key(*button),
            },
    {
        if !button.is_valid() {
            return None;
        }
        let id: usize = button.to_id();
        if id >= self.slots.len() {
            return None;
        }
        let mut slot: Option<Track> = None;
        std::mem::swap(&mut self.slots[id], &mut slot);
        proof {
            assert forall|other: B|
                other.is_button() && other.position() == button.position() implies other
                == *button by {
                other.lemma_position_identifies(button);
            }
        }
        slot
    }

    /// The track of a button, if the button has one.
    pub(crate) fn get(&self, button: &B) -> (track: Option<&Track>)
        ensures
            match track {
                Some(t) => self.view().contains_key(*button) && self.view()[*button] == t@,
                None => !self.view().contains_key(*button),
            },
    {
        if !button.is_valid() {
            return None;
        }
        let id: usize = button.to_id();
        if id >= self.slots.len() {
            return None;
        }
        self.slots[id].as_ref()
    }

    /// Only buttons have tracks.
    pub(crate) proof fn lemma_keys_are_buttons(&self)
        ensures
            forall|button: B| #[trigger] self.view().contains_key(button) ==> button.is_button(),
    {
    }
}

} // verus!
