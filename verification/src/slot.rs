//! The drawable slot of one cell and what it shows while images are loaded
//! in the background.
//!
//! A slot is reused: as the viewport scrolls, the slot that showed one image is
//! given to another. Loading takes time and is never cancelled, so a load may
//! finish after its slot has moved on. Every request and every completion
//! therefore carries the flat index of its image, and a completion is applied
//! only to a slot that still belongs to that image.

use vstd::prelude::*;

verus! {

/// Names the pixel content that the loader has produced for one image.
#[derive(Clone, Copy, Debug, PartialEq, Eq, Structural)]
pub struct ContentHandle {
    pub id: u64,
}

/// The loader could not produce content for an image.
#[derive(Clone, Copy, Debug, PartialEq, Eq, Structural)]
pub struct LoadError {}

/// What became of a completion that was handed to a slot.
#[derive(Clone, Copy, Debug, PartialEq, Eq, Structural)]
pub enum Completion {
    /// The slot belongs to the image and now shows its content.
    Displayed,
    /// The slot belongs to the image, but loading failed: the slot shows the
    /// placeholder, and the failure is to be reported.
    Failed,
    /// The slot no longer belongs to the image: nothing was changed.
    Stale,
}

/// The slot of one cell.
#[derive(Clone, Copy, Debug, PartialEq, Eq, Structural)]
pub enum CellSlot {
    /// The slot belongs to no image and shows the placeholder.
    Unrequested,
    /// The slot belongs to image `image_idx`, whose content has been asked for;
    /// it shows the placeholder.
    Requested { image_idx: usize },
    /// The slot belongs to image `image_idx` and shows `content`.
    Loaded { image_idx: usize, content: ContentHandle },
    /// The slot belongs to image `image_idx`, which could not be loaded; it
    /// shows the placeholder.
    Failed { image_idx: usize },
}

impl CellSlot {
    /// Flat index of the image that the slot belongs to, if any.
    pub open spec fn assigned(self) -> Option<usize> {
        match self {
            CellSlot::Unrequested => None,
            CellSlot::Requested { image_idx } => Some(image_idx),
            CellSlot::Loaded { image_idx, .. } => Some(image_idx),
            CellSlot::Failed { image_idx } => Some(image_idx),
        }
    }

    /// The content that the slot shows; `None` stands for the placeholder.
    pub open spec fn displayed(self) -> Option<ContentHandle> {
        match self {
            CellSlot::Loaded { content, .. } => Some(content),
            _ => None,
        }
    }

    /// The slot after it was given to the cell that shows image `image_idx`.
    /// A slot that belongs to that image already keeps what it has. Any other
    /// slot starts afresh: what it showed is gone and a new request is under way.
    pub open spec fn after_request(self, image_idx: usize) -> CellSlot {
        if self.assigned() == Some(image_idx) {
            self
        } else {
            CellSlot::Requested { image_idx }
        }
    }

    /// The slot after the load of image `image_idx` ended in `outcome`. Only a
    /// slot that belongs to that image takes the outcome.
    pub open spec fn after_complete(
        self,
        image_idx: usize,
        outcome: Result<ContentHandle, LoadError>,
    ) -> CellSlot {
        if self.assigned() == Some(image_idx) {
            match outcome {
                Ok(content) => CellSlot::Loaded { image_idx, content },
                Err(_) => CellSlot::Failed { image_idx },
            }
        } else {
            self
        }
    }

    /// A slot that belongs to no image.
    pub fn new() -> (slot: CellSlot)
        ensures
            slot == CellSlot::Unrequested,
    {
        CellSlot::Unrequested
    }

    /// Flat index of the image that the slot belongs to, if any.
    pub fn image_idx(&self) -> (image_idx: Option<usize>)
        ensures
            image_idx == self.assigned(),
    {
        match self {
            CellSlot::Unrequested => None,
            CellSlot::Requested { image_idx } => Some(*image_idx),
            CellSlot::Loaded { image_idx, .. } => Some(*image_idx),
            CellSlot::Failed { image_idx } => Some(*image_idx),
        }
    }

    /// The content that the slot shows; `None` stands for the placeholder.
    pub fn content(&self) -> (content: Option<ContentHandle>)
        ensures
            content == self.displayed(),
    {
        match self {
            CellSlot::Loaded { content, .. } => Some(*content),
            _ => None,
        }
    }

    /// Gives the slot to the cell that shows image `image_idx`, for which a
    /// request is issued. Returns whether the slot was taken from another
    /// image or from none, and so starts afresh.
    pub fn request(&mut self, image_idx: usize) -> (recycled: bool)
        ensures
            *final(self) == old(self).after_request(image_idx),
            recycled <==> old(self).assigned() != Some(image_idx),
            final(self).assigned() == Some(image_idx),
    {
        let recycled = match self.image_idx() {
            Some(current) => current != image_idx,
            None => true,
        };
        if recycled {
            *self = CellSlot::Requested { image_idx };
        }
        recycled
    }

    /// Takes the slot from its cell, which is no longer visible. Nothing of
    /// what the slot held is kept.
    pub fn release(&mut self)
        ensures
            *final(self) == CellSlot::Unrequested,
    {
        *self = CellSlot::Unrequested;
    }

    /// Hands the slot the outcome of the load of image `image_idx`. The
    /// outcome is applied only if the slot still belongs to that image; a slot
    /// that has been given to another image, or released, stays as it is.
    pub fn complete(&mut self, image_idx: usize, outcome: Result<ContentHandle, LoadError>) -> (done:
        Completion)
        ensures
            *final(self) == old(self).after_complete(image_idx, outcome),
            old(self).assigned() != Some(image_idx) ==> *final(self) == *old(self) && done
                == Completion::Stale,
            old(self).assigned() == Some(image_idx) ==> (match outcome {
                Ok(content) => *final(self) == (CellSlot::Loaded { image_idx, content }) && done
                    == Completion::Displayed,
                Err(_) => *final(self) == (CellSlot::Failed { image_idx }) && done
                    == Completion::Failed,
            }),
    {
        let belongs = match self.image_idx() {
            Some(current) => current == image_idx,
            None => false,
        };
        if !belongs {
            return Completion::Stale;
        }
        match outcome {
            Ok(content) => {
                *self = CellSlot::Loaded { image_idx, content };
                Completion::Displayed
            },
            Err(_) => {
                *self = CellSlot::Failed { image_idx };
                Completion::Failed
            },
        }
    }
}

/// A completion for image `i` that arrives after the slot was given to another
/// image `j` changes nothing: the slot goes on showing what it shows for `j`.
pub proof fn lemma_stale_completion_is_discarded(
    slot: CellSlot,
    i: usize,
    j: usize,
    outcome: Result<ContentHandle, LoadError>,
)
    requires
        i != j,
    ensures
        slot.after_request(j).after_complete(i, outcome) == slot.after_request(j),
        slot.after_request(j).after_complete(i, outcome).assigned() == Some(j),
        slot.after_request(j).after_complete(i, outcome).displayed() == slot.after_request(
            j,
        ).displayed(),
{
}

/// A completion changes what a slot shows only if the slot belongs to the
/// image that was loaded.
pub proof fn lemma_completion_needs_the_index(
    slot: CellSlot,
    i: usize,
    outcome: Result<ContentHandle, LoadError>,
)
    ensures
        slot.after_complete(i, outcome) != slot ==> slot.assigned() == Some(i),
        slot.after_complete(i, outcome).assigned() == slot.assigned(),
{
}

} // verus!
