//! One row of the grid: which of the cells that the viewport reports are shown,
//! and which image each of them shows.

use std::path::PathBuf;
use vstd::prelude::*;
use crate::layout;
use crate::state::State;

verus! {

/// The template from which a viewport makes the drawable slot for an item.
#[derive(Clone, Copy, Debug, PartialEq, Eq, Structural)]
pub enum Template {
    /// Template of a row of the grid.
    ImageRow,
    /// Template of a cell of a row.
    ImageItem,
}

/// What is to be done for one visible cell: take the slot of item `item_idx`
/// from the viewport, made from `template`, and ask for the image at
/// `image_path`, whose flat index is `image_idx`, to be loaded into it.
#[derive(Debug)]
pub struct CellRequest<'a> {
    pub item_idx: usize,
    pub template: Template,
    pub image_idx: usize,
    pub image_path: &'a PathBuf,
}

/// Row `row_idx` of the collection `state`. The collection is borrowed for as
/// long as the row exists, so the row stays a row of it.
#[derive(Debug)]
pub struct ImageRow<'a> {
    state: &'a State,
    row_idx: usize,
}

impl<'a> ImageRow<'a> {
    /// The row is one of the collection's rows.
    #[verifier::type_invariant]
    pub open spec fn wf(&self) -> bool {
        self.index() < self.collection().rows()
    }

    /// The collection that the row belongs to.
    pub closed spec fn collection(&self) -> State {
        *self.state
    }

    /// The row's index.
    pub closed spec fn index(&self) -> nat {
        self.row_idx as nat
    }

    /// Row `row_idx` of `state`.
    pub closed spec fn at(state: &'a State, row_idx: usize) -> ImageRow<'a> {
        ImageRow { state, row_idx }
    }

    /// `at(state, row_idx)` is row `row_idx` of `state`.
    pub proof fn lemma_at(state: &'a State, row_idx: usize)
        ensures
            Self::at(state, row_idx).collection() == *state,
            Self::at(state, row_idx).index() == row_idx,
    {
    }

    /// Number of cells in the row.
    pub open spec fn count(&self) -> nat {
        layout::count(self.index(), self.collection()@.len(), self.collection().capacity())
    }

    /// What is done when the viewport reports item `item_idx` visible: nothing
    /// if the row has no such cell, else the request for that cell.
    pub open spec fn request_for(&self, item_idx: usize) -> Option<CellRequest<'a>> {
        if item_idx < self.count() {
            let image_idx: nat = layout::flat_index(
                self.index(),
                item_idx as nat,
                self.collection().capacity(),
            );
            Some(
                CellRequest {
                    item_idx,
                    template: Template::ImageItem,
                    image_idx: image_idx as usize,
                    image_path: &self.collection()@[image_idx as int],
                },
            )
        } else {
            None
        }
    }

    /// The requests of one pass over the row, in which the viewport reports
    /// the items `visible` in this order: one for each reported item that is a
    /// cell of the row, in the order reported.
    pub open spec fn requests_for(&self, visible: Seq<usize>) -> Seq<CellRequest<'a>> {
        visible.filter(|item_idx: usize| item_idx < self.count()).map_values(
            |item_idx: usize| self.request_for(item_idx).unwrap(),
        )
    }

    /// Row `row_idx` of `state`, or `None` if the collection has no such row.
    pub fn new(state: &'a State, row_idx: usize) -> (row: Option<ImageRow<'a>>)
        ensures
            row == (if row_idx < state.rows() {
                Some(Self::at(state, row_idx))
            } else {
                None
            }),
            row is Some <==> layout::first_index(row_idx as nat, state.capacity()) < state@.len(),
            row matches Some(r) ==> r.collection() == *state && r.index() == row_idx,
    {
        proof {
            use_type_invariant(state);
            layout::lemma_row_exists_iff_first_index_in_collection(
                row_idx as nat,
                state@.len(),
                state.capacity(),
            );
        }
        if row_idx < state.num_rows() {
            Some(ImageRow { state, row_idx })
        } else {
            None
        }
    }

    /// The row's index.
    pub fn row_idx(&self) -> (row_idx: usize)
        ensures
            row_idx == self.index(),
            row_idx < self.collection().rows(),
    {
        proof {
            use_type_invariant(self);
        }
        self.row_idx
    }

    /// The collection that the row belongs to.
    pub fn state(&self) -> (state: &'a State)
        ensures
            *state == self.collection(),
    {
        self.state
    }

    /// Number of items to declare to the row's viewport: the number of cells
    /// in the row.
    pub fn item_range(&self) -> (range_end: usize)
        ensures
            range_end == self.count(),
            1 <= range_end <= self.collection().capacity(),
    {
        proof {
            use_type_invariant(self);
        }
        self.state.num_images_for_row(self.row_idx)
    }

    /// Decides what to do for item `item_idx`, which the viewport reports
    /// visible. An item past the end of the row is skipped: `None`. For a cell
    /// of the row the request names the image that the cell shows, which is
    /// always an image of the collection.
    pub fn visible_item(&self, item_idx: usize) -> (request: Option<CellRequest<'a>>)
        ensures
            request == self.request_for(item_idx),
            request is Some <==> item_idx < self.count(),
            request matches Some(r) ==> {
                &&& r.item_idx == item_idx
                &&& r.template == Template::ImageItem
                &&& r.image_idx == layout::flat_index(
                    self.index(),
                    item_idx as nat,
                    self.collection().capacity(),
                )
                &&& r.image_idx < self.collection()@.len()
                &&& *r.image_path == self.collection()@[r.image_idx as int]
            },
    {
        proof {
            use_type_invariant(self);
            use_type_invariant(self.state);
            self.state.lemma_len_is_usize();
            layout::lemma_row_counts(
                self.index(),
                self.collection()@.len(),
                self.collection().capacity(),
            );
        }
        if item_idx >= self.state.num_images_for_row(self.row_idx) {
            return None;
        }
        let first_image_idx: usize = self.state.first_image_idx_for_row(self.row_idx);
        let image_idx: usize = first_image_idx + item_idx;
        let image_path = self.state.reference_at(image_idx);
        Some(CellRequest { item_idx, template: Template::ImageItem, image_idx, image_path })
    }

    /// One pass over the row. The viewport reports the items `visible`, in this
    /// order; the result holds the requests to issue, in the same order. Items
    /// past the end of the row are skipped, so every request names an image of
    /// the collection, whatever the viewport reports.
    pub fn draw_walk(&self, visible: &[usize]) -> (requests: Vec<CellRequest<'a>>)
        ensures
            requests@ == self.requests_for(visible@),
            forall|k: int|
                0 <= k < requests@.len() ==> (#[trigger] requests@[k]).image_idx
                    < self.collection()@.len(),
    {
        let mut requests: Vec<CellRequest<'a>> = Vec::new();
        let mut i: usize = 0;
        while i < visible.len()
            invariant
                i <= visible.len(),
                requests@ == self.requests_for(visible@.take(i as int)),
                forall|k: int|
                    0 <= k < requests@.len() ==> (#[trigger] requests@[k]).image_idx
                        < self.collection()@.len(),
            decreases visible.len() - i,
        {
            let item_idx: usize = visible[i];
            let request = self.visible_item(item_idx);
            proof {
                let seen = visible@.take(i as int);
                assert(visible@.take(i + 1) == seen.push(item_idx));
                lemma_filter_push(seen, |item_idx: usize| item_idx < self.count(), item_idx);
            }
            if let Some(r) = request {
                requests.push(r);
            }
            i += 1;
        }
        assert(visible@.take(visible.len() as int) == visible@);
        requests
    }
}

/// Filtering a sequence with one more element at its end keeps that element,
/// at the end, if it passes, and drops it if it does not.
pub proof fn lemma_filter_push<A>(s: Seq<A>, pred: spec_fn(A) -> bool, last: A)
    ensures
        s.push(last).filter(pred) == (if pred(last) {
            s.filter(pred).push(last)
        } else {
            s.filter(pred)
        }),
{
    reveal(Seq::filter);
    assert(s.push(last).drop_last() == s);
}

} // verus!
