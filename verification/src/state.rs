//! The image collection: an ordered list of image paths and the number of
//! images shown per row.

use std::path::PathBuf;
use vstd::prelude::*;
use crate::layout;

verus! {

/// `std::path::PathBuf` is carried through as an opaque value: the collection
/// stores paths and hands them out, and never looks inside one.
#[verifier::external_type_specification]
#[verifier::external_body]
pub struct ExPathBuf(PathBuf);

/// Number of images per row of a collection made by `State::default`.
pub const DEFAULT_MAX_IMAGES_PER_ROW: usize = 4;

/// An ordered collection of image paths together with the maximum number of
/// images per row. The position of a path in the collection is its flat index.
///
/// The row structure is never stored: every derived quantity is computed from
/// the length of the collection and the row capacity when it is asked for.
#[derive(Debug)]
pub struct State {
    image_paths: Vec<PathBuf>,
    max_images_per_row: usize,
}

impl View for State {
    type V = Seq<PathBuf>;

    /// The paths of the collection, by flat index.
    closed spec fn view(&self) -> Seq<PathBuf> {
        self.image_paths@
    }
}

impl Default for State {
    /// An empty collection shown at `DEFAULT_MAX_IMAGES_PER_ROW` images per row.
    fn default() -> (state: Self)
        ensures
            state@ == Seq::<PathBuf>::empty(),
            state.capacity() == DEFAULT_MAX_IMAGES_PER_ROW,
    {
        State { image_paths: Vec::new(), max_images_per_row: DEFAULT_MAX_IMAGES_PER_ROW }
    }
}

impl State {
    /// The maximum number of images per row.
    pub closed spec fn capacity(&self) -> nat {
        self.max_images_per_row as nat
    }

    /// A row holds at least one image.
    #[verifier::type_invariant]
    pub open spec fn wf(&self) -> bool {
        self.capacity() >= 1
    }

    /// Number of rows of the collection.
    pub open spec fn rows(&self) -> nat {
        layout::num_rows(self@.len(), self.capacity())
    }

    /// The collection lives in memory, so its length is a `usize`.
    pub proof fn lemma_len_is_usize(&self)
        ensures
            self@.len() <= usize::MAX,
    {
        assert(self@.len() == self.image_paths.len());
    }

    /// The rows of a collection depend on its length and its row capacity and
    /// on nothing else: two collections that agree in both have the same rows,
    /// whatever they hold and however often they are asked.
    pub proof fn lemma_rows_depend_on_len_and_capacity(&self, other: &State, row: nat)
        requires
            self@.len() == other@.len(),
            self.capacity() == other.capacity(),
        ensures
            self.rows() == other.rows(),
            layout::first_index(row, self.capacity()) == layout::first_index(
                row,
                other.capacity(),
            ),
            layout::count(row, self@.len(), self.capacity()) == layout::count(
                row,
                other@.len(),
                other.capacity(),
            ),
    {
    }

    /// An empty collection shown at `max_images_per_row` images per row, or
    /// `None` if that number is zero.
    pub fn with_max_images_per_row(max_images_per_row: usize) -> (made: Option<State>)
        ensures
            made is Some <==> max_images_per_row >= 1,
            made matches Some(state) ==> state@ == Seq::<PathBuf>::empty() && state.capacity()
                == max_images_per_row,
    {
        if max_images_per_row == 0 {
            None
        } else {
            Some(State { image_paths: Vec::new(), max_images_per_row })
        }
    }

    /// The maximum number of images per row.
    pub fn max_images_per_row(&self) -> (c: usize)
        ensures
            c == self.capacity(),
            c >= 1,
    {
        proof {
            use_type_invariant(self);
        }
        self.max_images_per_row
    }

    /// Number of images in the collection.
    pub fn num_images(&self) -> (n: usize)
        ensures
            n == self@.len(),
    {
        self.image_paths.len()
    }

    /// Number of rows: the ceiling of `num_images / max_images_per_row`, which
    /// is the least number of rows that hold all the images.
    pub fn num_rows(&self) -> (rows: usize)
        ensures
            rows == layout::num_rows(self@.len(), self.capacity()),
            rows * self.capacity() >= self@.len(),
            self@.len() > 0 ==> (rows - 1) * self.capacity() < self@.len(),
            self@.len() == 0 ==> rows == 0,
    {
        proof {
            use_type_invariant(self);
            layout::lemma_num_rows_is_ceiling(self@.len(), self.capacity());
        }
        let n: usize = self.image_paths.len();
        if n % self.max_images_per_row == 0 {
            n / self.max_images_per_row
        } else {
            n / self.max_images_per_row + 1
        }
    }

    /// Flat index of the first image of row `row_idx`.
    pub fn first_image_idx_for_row(&self, row_idx: usize) -> (first: usize)
        requires
            row_idx < self.rows(),
        ensures
            first == layout::first_index(row_idx as nat, self.capacity()),
            first < self@.len(),
    {
        proof {
            use_type_invariant(self);
            layout::lemma_row_counts(row_idx as nat, self@.len(), self.capacity());
            self.lemma_len_is_usize();
        }
        row_idx * self.max_images_per_row
    }

    /// Number of images in row `row_idx`: `max_images_per_row`, or what is left
    /// of the collection from the row's first image on if that is less.
    pub fn num_images_for_row(&self, row_idx: usize) -> (count: usize)
        requires
            row_idx < self.rows(),
        ensures
            count == layout::count(row_idx as nat, self@.len(), self.capacity()),
            1 <= count <= self.capacity(),
    {
        proof {
            use_type_invariant(self);
            layout::lemma_row_counts(row_idx as nat, self@.len(), self.capacity());
        }
        let first_image_idx: usize = self.first_image_idx_for_row(row_idx);
        let remaining_images: usize = self.num_images() - first_image_idx;
        if remaining_images < self.max_images_per_row {
            remaining_images
        } else {
            self.max_images_per_row
        }
    }

    /// Row and column of the cell that shows the image with flat index `image_idx`.
    pub fn cell_of_image(&self, image_idx: usize) -> (cell: (usize, usize))
        requires
            image_idx < self@.len(),
        ensures
            cell.0 == layout::row_of(image_idx as nat, self.capacity()),
            cell.1 == layout::col_of(image_idx as nat, self.capacity()),
            layout::is_cell(cell.0 as nat, cell.1 as nat, self@.len(), self.capacity()),
            layout::flat_index(cell.0 as nat, cell.1 as nat, self.capacity()) == image_idx,
    {
        proof {
            use_type_invariant(self);
            layout::lemma_index_to_cell_round_trip(
                image_idx as nat,
                self@.len(),
                self.capacity(),
            );
        }
        (image_idx / self.max_images_per_row, image_idx % self.max_images_per_row)
    }

    /// The path of the image with flat index `image_idx`.
    pub fn reference_at(&self, image_idx: usize) -> (path: &PathBuf)
        requires
            image_idx < self@.len(),
        ensures
            *path == self@[image_idx as int],
    {
        &self.image_paths[image_idx]
    }

    /// Replaces the whole collection by `new_refs`, in the order given. The row
    /// capacity stays. Returns `true`: what is on screen is out of date and a
    /// redraw is needed.
    pub fn replace_all(&mut self, new_refs: Vec<PathBuf>) -> (redraw: bool)
        ensures
            final(self)@ == new_refs@,
            final(self).capacity() == old(self).capacity(),
            redraw,
    {
        proof {
            use_type_invariant(&*self);
        }
        self.image_paths = new_refs;
        true
    }
}

} // verus!
