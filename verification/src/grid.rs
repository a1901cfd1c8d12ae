//! The grid as a whole: which of the rows that the viewport reports are shown.

use vstd::prelude::*;
use crate::layout;
use crate::row::{lemma_filter_push, ImageRow, Template};
use crate::state::State;

verus! {

/// What is to be done for one visible row: take the slot of item `row_idx`
/// from the viewport, made from `template`, and draw `row` into it. The row
/// carries its index and the collection, and shares nothing else with the
/// other rows.
#[derive(Debug)]
pub struct RowRequest<'a> {
    pub row_idx: usize,
    pub template: Template,
    pub row: ImageRow<'a>,
}

/// The grid of the collection `state`, borrowed for one pass.
#[derive(Debug)]
pub struct ImageGrid<'a> {
    state: &'a State,
}

impl<'a> ImageGrid<'a> {
    /// The collection that the grid shows.
    pub closed spec fn collection(&self) -> &'a State {
        self.state
    }

    /// What is done when the viewport reports row `row_idx` visible: nothing
    /// if the collection has no such row, else the request for that row.
    pub open spec fn request_for(&self, row_idx: usize) -> Option<RowRequest<'a>> {
        if row_idx < self.collection().rows() {
            Some(
                RowRequest {
                    row_idx,
                    template: Template::ImageRow,
                    row: ImageRow::at(self.collection(), row_idx),
                },
            )
        } else {
            None
        }
    }

    /// The requests of one pass over the grid, in which the viewport reports
    /// the rows `visible` in this order: one for each reported row that the
    /// collection has, in the order reported.
    pub open spec fn requests_for(&self, visible: Seq<usize>) -> Seq<RowRequest<'a>> {
        visible.filter(|row_idx: usize| row_idx < self.collection().rows()).map_values(
            |row_idx: usize| self.request_for(row_idx).unwrap(),
        )
    }

    /// The grid of `state`.
    pub fn new(state: &'a State) -> (grid: ImageGrid<'a>)
        ensures
            grid.collection() == state,
    {
        ImageGrid { state }
    }

    /// The collection that the grid shows.
    pub fn state(&self) -> (state: &'a State)
        ensures
            state == self.collection(),
    {
        self.state
    }

    /// Number of items to declare to the grid's viewport: the number of rows.
    pub fn item_range(&self) -> (range_end: usize)
        ensures
            range_end == self.collection().rows(),
    {
        self.state.num_rows()
    }

    /// Decides what to do for row `row_idx`, which the viewport reports
    /// visible. A row that the collection does not have is skipped: `None`.
    /// This happens when the viewport still goes by a length that the
    /// collection no longer has.
    pub fn visible_item(&self, row_idx: usize) -> (request: Option<RowRequest<'a>>)
        ensures
            request == self.request_for(row_idx),
            request is Some <==> row_idx < self.collection().rows(),
            request is Some <==> layout::first_index(row_idx as nat, self.collection().capacity())
                < self.collection()@.len(),
            request matches Some(r) ==> {
                &&& r.row_idx == row_idx
                &&& r.template == Template::ImageRow
                &&& r.row.collection() == *self.collection()
                &&& r.row.index() == row_idx
            },
    {
        match ImageRow::new(self.state, row_idx) {
            Some(row) => Some(RowRequest { row_idx, template: Template::ImageRow, row }),
            None => None,
        }
    }

    /// One pass over the grid. The viewport reports the rows `visible`, in
    /// this order; the result holds the rows to draw, in the same order. Rows
    /// that the collection does not have are skipped, whatever the viewport
    /// reports; an empty collection has no rows to draw.
    pub fn draw_walk(&self, visible: &[usize]) -> (requests: Vec<RowRequest<'a>>)
        ensures
            requests@ == self.requests_for(visible@),
            forall|k: int|
                0 <= k < requests@.len() ==> (#[trigger] requests@[k]).row_idx
                    < self.collection().rows(),
            self.collection()@.len() == 0 ==> requests@.len() == 0,
    {
        let mut requests: Vec<RowRequest<'a>> = Vec::new();
        let mut i: usize = 0;
        while i < visible.len()
            invariant
                i <= visible.len(),
                requests@ == self.requests_for(visible@.take(i as int)),
                forall|k: int|
                    0 <= k < requests@.len() ==> (#[trigger] requests@[k]).row_idx
                        < self.collection().rows(),
            decreases visible.len() - i,
        {
            let row_idx: usize = visible[i];
            let request = self.visible_item(row_idx);
            proof {
                let seen = visible@.take(i as int);
                assert(visible@.take(i + 1) == seen.push(row_idx));
                lemma_filter_push(
                    seen,
                    |row_idx: usize| row_idx < self.collection().rows(),
                    row_idx,
                );
            }
            if let Some(r) = request {
                requests.push(r);
            }
            i += 1;
        }
        proof {
            assert(visible@.take(visible.len() as int) == visible@);
            use_type_invariant(self.state);
            layout::lemma_num_rows_is_ceiling(
                self.collection()@.len(),
                self.collection().capacity(),
            );
            if requests@.len() > 0 {
                assert(requests@[0].row_idx < self.collection().rows());
            }
        }
        requests
    }
}

} // verus!
