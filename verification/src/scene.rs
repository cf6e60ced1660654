use vstd::prelude::*;
use crate::limits::COORD_MAX;
use crate::style::{Style, StylePatch, style_wf, apply_patch_spec};
use crate::ellipse::{Ellipse, Point, marbled_rel, constructed_points};

verus! {

/// The evolving drawing: every placed shape in drop order (which is also
/// the display order), plus the pending style that the next drop will
/// capture. Shapes are only ever appended; an existing shape's index
/// never changes.
pub struct Scene {
    pub drops: Vec<Ellipse>,
    pub settings: Style,
}

impl Scene {
    /// A well-formed scene: a well-formed pending style and well-formed
    /// shapes throughout the collection.
    pub open spec fn wf(self) -> bool {
        &&& style_wf(self.settings)
        &&& forall|i: int| 0 <= i < self.drops@.len() ==> (#[trigger] self.drops@[i]).wf()
    }

    /// An empty scene with the given initial pending style.
    pub fn new(settings: Style) -> (s: Scene)
        requires
            style_wf(settings),
        ensures
            s.wf(),
            s.drops@.len() == 0,
            s.settings == settings,
    {
        Scene { drops: Vec::new(), settings }
    }

    /// Drop a new shape at `(x, y)` with a copy of the pending style:
    /// every shape that already existed is marbled by the new one, then
    /// the new shape is appended, itself untransformed. Returns the new
    /// shape's stable index.
    pub fn drop_at(&mut self, x: i64, y: i64) -> (id: usize)
        requires
            old(self).wf(),
            -COORD_MAX <= x <= COORD_MAX,
            -COORD_MAX <= y <= COORD_MAX,
        ensures
            final(self).wf(),
            final(self).settings == old(self).settings,
            final(self).drops@.len() == old(self).drops@.len() + 1,
            id as int == old(self).drops@.len(),
            final(self).drops@[id as int].center == (Point { x, y }),
            final(self).drops@[id as int].properties == old(self).settings,
            constructed_points(
                final(self).drops@[id as int].points@,
                x as int,
                y as int,
                old(self).settings.radius as int,
                old(self).settings.edges as int,
            ),
            forall|j: int|
                0 <= j < old(self).drops@.len() ==> marbled_rel(
                    old(self).drops@[j],
                    #[trigger] final(self).drops@[j],
                    Point { x, y },
                    old(self).settings.radius as int,
                ),
    {
        let influencer = Ellipse::new(x, y, self.settings);
        let n = self.drops.len();
        let mut updated: Vec<Ellipse> = Vec::new();
        let mut i: usize = 0;
        while i < n
            invariant
                i <= n,
                n == old(self).drops@.len(),
                self.settings == old(self).settings,
                self.drops@ =~= old(self).drops@.subrange(i as int, n as int),
                updated@.len() == i as int,
                influencer.wf(),
                influencer.center == (Point { x, y }),
                influencer.properties == old(self).settings,
                old(self).wf(),
                forall|j: int|
                    0 <= j < i as int ==> marbled_rel(
                        old(self).drops@[j],
                        #[trigger] updated@[j],
                        Point { x, y },
                        old(self).settings.radius as int,
                    ),
                forall|j: int| 0 <= j < i as int ==> (#[trigger] updated@[j]).wf(),
            decreases n - i,
        {
            let mut e = self.drops.remove(0);
            proof {
                assert(e == old(self).drops@[i as int]);
                assert(self.drops@ =~= old(self).drops@.subrange(i as int + 1, n as int));
            }
            e.marble(&influencer);
            updated.push(e);
            i += 1;
        }
        self.drops = updated;
        self.drops.push(influencer);
        n
    }

    /// Merge a partial style update into the pending style, clamping each
    /// requested value into its valid range. Already placed shapes are
    /// never touched by a settings change.
    pub fn update_settings(&mut self, patch: StylePatch)
        requires
            old(self).wf(),
        ensures
            final(self).wf(),
            final(self).settings == apply_patch_spec(old(self).settings, patch),
            final(self).drops@ == old(self).drops@,
    {
        self.settings = self.settings.updated(patch);
    }

    /// The placed shapes, in drop order, for the renderer to read.
    pub fn all_shapes(&self) -> (shapes: &Vec<Ellipse>)
        ensures
            shapes@ == self.drops@,
    {
        &self.drops
    }
}

} // verus!
