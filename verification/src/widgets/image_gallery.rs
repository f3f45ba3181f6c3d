//! The image gallery of a person: which image the lightbox shows, how it steps
//! to the neighbouring images, and what the gallery asks of the person view.

use vstd::prelude::*;
use vstd::string::*;
use vstd::view::View as _;
use crate::text::{owned, push_decimal, push_str};

verus! {

/// What the gallery asks the person view to do after it was shown.
pub struct GalleryAction {
    /// Make this image (relative path) the profile image.
    pub set_profile_image: Option<String>,
    /// Delete this image (document id and file name), after confirmation.
    pub delete_image: Option<(i64, String)>,
    /// Open this document in the document viewer.
    pub open_document: Option<i64>,
}

impl Default for GalleryAction {
    fn default() -> (a: GalleryAction)
        ensures
            a.set_profile_image is None,
            a.delete_image is None,
            a.open_document is None,
    {
        GalleryAction { set_profile_image: None, delete_image: None, open_document: None }
    }
}

/// An image of the gallery: its document id, file name and path relative to the
/// person's directory.
pub struct GalleryImage {
    pub id: Option<i64>,
    pub filename: String,
    pub relative_path: String,
}

/// The state of a person's image gallery (the textures and the zoom level are
/// kept beside it, by the code that draws).
pub struct GalleryState {
    pub images: Vec<GalleryImage>,
    pub selected_image: Option<i64>,
    pub needs_refresh: bool,
    pub person_id: Option<i64>,
    pub person_dir: Option<String>,
    pub pending_profile_image: Option<String>,
    pub pending_delete: Option<(i64, String)>,
    pub pending_open_document: Option<i64>,
}

/// Where the lightbox stands in the list of images, and its neighbours.
pub struct LightboxPosition {
    pub index: usize,
    pub prev_id: Option<i64>,
    pub next_id: Option<i64>,
}

/// The first position of the image with id `image_id`.
pub open spec fn first_position(ids: Seq<Option<i64>>, image_id: i64) -> Option<int> {
    if exists|k: int| 0 <= k < ids.len() && ids[k] == Some(image_id) {
        Some(
            choose|k: int|
                0 <= k < ids.len() && ids[k] == Some(image_id) && forall|j: int|
                    0 <= j < k ==> ids[j] != Some(image_id),
        )
    } else {
        None
    }
}

/// The ids of the images, in gallery order.
pub open spec fn image_ids(images: Seq<GalleryImage>) -> Seq<Option<i64>> {
    images.map_values(|g: GalleryImage| g.id)
}

/// The counter under the lightbox: `position / total`, counting from one.
pub open spec fn counter_text(index: nat, total: nat) -> Seq<char> {
    crate::text::decimal(index + 1) + " / "@ + crate::text::decimal(total)
}

impl GalleryState {
    /// A gallery that loads on its first display.
    pub fn new() -> (g: GalleryState)
        ensures
            g.images@.len() == 0,
            g.selected_image is None,
            g.needs_refresh,
            g.person_id is None,
            g.person_dir is None,
            g.pending_profile_image is None,
            g.pending_delete is None,
            g.pending_open_document is None,
    {
        GalleryState {
            images: Vec::new(),
            selected_image: None,
            needs_refresh: true,
            person_id: None,
            person_dir: None,
            pending_profile_image: None,
            pending_delete: None,
            pending_open_document: None,
        }
    }

    /// Whether the images are to be loaded before showing them for `person_id`.
    pub fn needs_reload(&self, person_id: i64) -> (r: bool)
        ensures
            r == (self.needs_refresh || self.person_id != Some(person_id)),
    {
        self.needs_refresh || self.person_id != Some(person_id)
    }

    /// Takes the images loaded for `person_id` and the person's directory.
    pub fn loaded(&mut self, person_id: i64, person_dir: Option<String>, images: Vec<GalleryImage>)
        ensures
            final(self).person_id == Some(person_id),
            final(self).person_dir == person_dir,
            final(self).images == images,
            !final(self).needs_refresh,
            final(self).selected_image == old(self).selected_image,
    {
        self.person_id = Some(person_id);
        self.person_dir = person_dir;
        self.images = images;
        self.needs_refresh = false;
    }

    /// Asks for the images to be loaded again; the person's directory is
    /// forgotten with them.
    pub fn mark_needs_refresh(&mut self)
        ensures
            final(self).needs_refresh,
            final(self).person_dir is None,
            final(self).images == old(self).images,
            final(self).selected_image == old(self).selected_image,
    {
        self.needs_refresh = true;
        self.person_dir = None;
    }

    /// The number of images.
    pub fn image_count(&self) -> (r: usize)
        ensures
            r == self.images@.len(),
    {
        self.images.len()
    }

    /// The requests that waited from the last display: they are handed over and
    /// no longer wait.  A request to open a document waits until the display
    /// ends.
    pub fn begin_show(&mut self) -> (a: GalleryAction)
        ensures
            a.set_profile_image == old(self).pending_profile_image,
            a.delete_image == old(self).pending_delete,
            a.open_document is None,
            final(self).pending_profile_image is None,
            final(self).pending_delete is None,
            final(self).pending_open_document == old(self).pending_open_document,
            final(self).images == old(self).images,
            final(self).selected_image == old(self).selected_image,
    {
        let set_profile_image = self.pending_profile_image.take();
        let delete_image = self.pending_delete.take();
        GalleryAction { set_profile_image, delete_image, open_document: None }
    }

    /// At the end of a display, the requests made during it join the action.
    pub fn finish_show(&mut self, action: &mut GalleryAction)
        ensures
            old(self).pending_profile_image is Some ==> final(action).set_profile_image
                == old(self).pending_profile_image,
            old(self).pending_profile_image is None ==> final(action).set_profile_image
                == old(action).set_profile_image,
            old(self).pending_delete is Some ==> final(action).delete_image
                == old(self).pending_delete,
            old(self).pending_delete is None ==> final(action).delete_image
                == old(action).delete_image,
            old(self).pending_open_document is Some ==> final(action).open_document
                == old(self).pending_open_document,
            old(self).pending_open_document is None ==> final(action).open_document
                == old(action).open_document,
            final(self).pending_profile_image is None,
            final(self).pending_delete is None,
            final(self).pending_open_document is None,
            final(self).images == old(self).images,
            final(self).selected_image == old(self).selected_image,
    {
        if self.pending_profile_image.is_some() {
            action.set_profile_image = self.pending_profile_image.take();
        }
        if self.pending_delete.is_some() {
            action.delete_image = self.pending_delete.take();
        }
        if self.pending_open_document.is_some() {
            action.open_document = self.pending_open_document.take();
        }
    }

    /// A click on a thumbnail opens the lightbox on that image.
    pub fn select(&mut self, image_id: i64)
        ensures
            final(self).selected_image == Some(image_id),
            final(self).images == old(self).images,
    {
        self.selected_image = Some(image_id);
    }

    /// Where the image stands in the gallery, with the ids of the images before
    /// and after it.  Where it is no longer there, the lightbox closes.
    pub fn lightbox_position(&mut self, image_id: i64) -> (r: Option<LightboxPosition>)
        ensures
            final(self).images == old(self).images,
            first_position(image_ids(old(self).images@), image_id) is None ==> r is None
                && final(self).selected_image is None,
            first_position(image_ids(old(self).images@), image_id) matches Some(k) ==> (
            r matches Some(pos) && pos.index == k && final(self).selected_image
                == old(self).selected_image && pos.prev_id == (if k > 0 {
                old(self).images@[k - 1].id
            } else {
                None
            }) && pos.next_id == (if k + 1 < old(self).images@.len() {
                old(self).images@[k + 1].id
            } else {
                None
            })),
    {
        let ghost ids = image_ids(self.images@);
        let n = self.images.len();
        let mut i: usize = 0;
        while i < n
            invariant
                n == self.images@.len(),
                ids == image_ids(self.images@),
                i <= n,
                forall|j: int| 0 <= j < i ==> ids[j] != Some(image_id),
            decreases n - i,
        {
            if self.images[i].id == Some(image_id) {
                proof {
                    assert(ids[i as int] == Some(image_id));
                    let k = choose|k: int|
                        0 <= k < ids.len() && ids[k] == Some(image_id) && forall|j: int|
                            0 <= j < k ==> ids[j] != Some(image_id);
                    assert(ids[k] == Some(image_id));
                    assert(k == i as int);
                }
                let prev_id = if i > 0 {
                    self.images[i - 1].id
                } else {
                    None
                };
                let next_id = if i + 1 < n {
                    self.images[i + 1].id
                } else {
                    None
                };
                return Some(LightboxPosition { index: i, prev_id, next_id });
            }
            i = i + 1;
        }
        self.selected_image = None;
        None
    }

    /// What the buttons of the lightbox did: close it, step to another image, or
    /// open the image in the document viewer.  Returns whether the zoom is
    /// reset.
    pub fn lightbox_done(
        &mut self,
        image_id: i64,
        close: bool,
        new_selected: Option<i64>,
        open_in_viewer: bool,
    ) -> (zoom_reset: bool)
        ensures
            zoom_reset == (close || new_selected is Some),
            open_in_viewer ==> final(self).selected_image is None
                && final(self).pending_open_document == Some(image_id),
            !open_in_viewer && close ==> final(self).selected_image is None,
            !open_in_viewer && !close && new_selected is Some ==> final(self).selected_image
                == new_selected,
            !open_in_viewer && !close && new_selected is None ==> final(self).selected_image
                == old(self).selected_image,
            !open_in_viewer ==> final(self).pending_open_document
                == old(self).pending_open_document,
            final(self).images == old(self).images,
    {
        let mut zoom_reset = false;
        if close {
            self.selected_image = None;
            zoom_reset = true;
        } else if let Some(id) = new_selected {
            self.selected_image = Some(id);
            zoom_reset = true;
        }
        if open_in_viewer {
            self.pending_open_document = Some(image_id);
            self.selected_image = None;
        }
        zoom_reset
    }

    /// The path of an image, as parts below the media root: in the person's
    /// directory under `persons` when it is known, else the relative path alone.
    pub fn image_path_parts(&self, relative_path: &str) -> (r: Vec<String>)
        ensures
            self.person_dir matches Some(d) ==> r@.len() == 3 && r@[0]@ == "persons"@ && r@[1]@
                == d@ && r@[2]@ == relative_path@,
            self.person_dir is None ==> r@.len() == 1 && r@[0]@ == relative_path@,
    {
        let mut r: Vec<String> = Vec::new();
        match &self.person_dir {
            Some(d) => {
                r.push(owned("persons"));
                r.push(d.clone());
                r.push(owned(relative_path));
            },
            None => {
                r.push(owned(relative_path));
            },
        }
        r
    }
}

/// The counter under the lightbox.
pub fn counter_label(index: usize, total: usize) -> (r: String)
    requires
        index < total,
    ensures
        r@ == counter_text(index as nat, total as nat),
{
    let mut t = String::new();
    push_decimal(&mut t, (index as u64) + 1);
    push_str(&mut t, " / ");
    push_decimal(&mut t, total as u64);
    t
}

/// In a grid of `columns` columns, whether the thumbnail at `i` starts a new
/// row.
pub fn starts_new_row(i: usize, columns: usize) -> (r: bool)
    requires
        columns > 0,
    ensures
        r == (i > 0 && i % columns == 0),
{
    i > 0 && i % columns == 0
}

/// The images have distinct ids.
pub open spec fn distinct_ids(images: Seq<GalleryImage>) -> bool {
    forall|i: int, j: int| 0 <= i < j < images.len() ==> (#[trigger] images[i]).id != (#[trigger] images[j]).id
}

/// Stepping to the next image and back returns to the image: in a gallery with
/// distinct ids, the image after the one at `k` stands at `k + 1`, and the
/// image before it is the one at `k`.
pub proof fn law_next_then_previous(images: Seq<GalleryImage>, image_id: i64, k: int)
    requires
        distinct_ids(images),
        first_position(image_ids(images), image_id) == Some(k),
        k + 1 < images.len(),
        images[k + 1].id is Some,
    ensures
        first_position(image_ids(images), images[k + 1].id->0) == Some(k + 1),
        images[(k + 1) - 1].id == Some(image_id),
{
    let ids = image_ids(images);
    let b = images[k + 1].id->0;
    assert(ids[k + 1] == Some(b));
    assert forall|j: int| 0 <= j < k + 1 implies ids[j] != Some(b) by {
        assert(images[j].id != images[k + 1].id);
    }
    let c = choose|x: int|
        0 <= x < ids.len() && ids[x] == Some(b) && forall|j: int| 0 <= j < x ==> ids[j] != Some(b);
    if c != k + 1 {
        assert(images[c].id == images[k + 1].id);
    }
    assert(ids[k] == Some(image_id));
}

} // verus!
