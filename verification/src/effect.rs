//! The frame-buffer abstraction: one frame (`EffectMatrix`) is a fixed-size
//! 2D grid of colors addressed by (column, row); an `Effect` is an ordered
//! sequence of frames plus metadata, bound to one device's matrix geometry.

use vstd::prelude::*;

use crate::color::Color;
use crate::device::Device;
use crate::encode::{
    frame_parts, frame_parts_upto, frame_to_json, join_comma, lemma_frame_parts_upto, push_dec,
    push_quoted, push_str_chars, spec_effect_document, spec_frame_json,
};
use crate::strutil::chars_to_string;
use crate::{PolychromaticError, FPS_MAX, FPS_MIN};

verus! {

/// One animation frame: a width x height grid of colors, stored row-major.
#[derive(Debug)]
pub struct EffectMatrix {
    width: u32,
    height: u32,
    values: Vec<Color>,
}

impl EffectMatrix {
    /// The grid holds exactly width x height colors.
    pub open spec fn wf(self) -> bool {
        self.pixels().len() == self.spec_width() as int * self.spec_height() as int
    }

    pub closed spec fn spec_width(self) -> u32 {
        self.width
    }

    pub closed spec fn spec_height(self) -> u32 {
        self.height
    }

    /// The grid contents, row-major.
    pub closed spec fn pixels(self) -> Seq<Color> {
        self.values@
    }

    /// Whether (x, y) addresses a cell of the grid.
    pub open spec fn in_bounds(self, x: u32, y: u32) -> bool {
        x < self.spec_width() && y < self.spec_height()
    }

    /// The row-major position of cell (x, y).
    pub open spec fn pos(self, x: u32, y: u32) -> int {
        x as int + y as int * self.spec_width() as int
    }

    /// The color at cell (x, y).
    pub open spec fn pixel(self, x: u32, y: u32) -> Color {
        self.pixels()[self.pos(x, y)]
    }

    /// Every cell quantizes to black.
    pub open spec fn all_black(self) -> bool {
        forall|k: int| 0 <= k < self.pixels().len() ==> self.pixels()[k].spec_is_black()
    }

    /// A cell position is within the grid contents.
    pub proof fn lemma_pos_in_range(self, x: u32, y: u32)
        requires
            self.wf(),
            self.in_bounds(x, y),
        ensures
            0 <= self.pos(x, y) < self.pixels().len(),
    {
        let w = self.width as int;
        let h = self.height as int;
        let xi = x as int;
        let yi = y as int;
        assert((xi + yi * w) < (w * h)) by (nonlinear_arith)
            requires
                0 <= xi < w,
                0 <= yi < h,
        ;
    }

    /// A fresh black-filled frame of the given geometry.
    pub(crate) fn new(width: u32, height: u32) -> (m: EffectMatrix)
        requires
            width as int * height as int <= usize::MAX as int,
        ensures
            m.wf(),
            m.spec_width() == width,
            m.spec_height() == height,
            m.all_black(),
    {
        let n: usize = (width as usize) * (height as usize);
        let mut values: Vec<Color> = Vec::new();
        let mut i: usize = 0;
        while i < n
            invariant
                i <= n,
                values@.len() == i,
                forall|k: int| 0 <= k < i ==> values@[k] == (Color { r: 0, g: 0, b: 0 }),
            decreases n - i,
        {
            values.push(Color { r: 0, g: 0, b: 0 });
            i += 1;
        }
        EffectMatrix { width, height, values }
    }

    /// The number of columns.
    pub fn width(&self) -> (w: u32)
        ensures
            w == self.spec_width(),
    {
        self.width
    }

    /// The number of rows.
    pub fn height(&self) -> (h: u32)
        ensures
            h == self.spec_height(),
    {
        self.height
    }

    /// The row-major index of (x, y), or nothing when the address is outside
    /// the grid.
    fn pos_to_index(&self, x: u32, y: u32) -> (r: Option<usize>)
        requires
            self.wf(),
        ensures
            r is Some <==> self.in_bounds(x, y),
            r is Some ==> r->0 == self.pos(x, y) && r->0 < self.pixels().len(),
    {
        if x >= self.width || y >= self.height {
            return None;
        }
        proof {
            self.lemma_pos_in_range(x, y);
        }
        let len = self.values.len();
        proof {
            assert(self.pixels().len() == len as int);
            assert((y as int) * (self.width as int) <= self.pos(x, y));
        }
        Some((x as usize) + (y as usize) * (self.width as usize))
    }

    /// The color at (x, y); absent when the address is outside the grid,
    /// never a failure of the whole call.
    pub fn get(&self, x: u32, y: u32) -> (r: Option<&Color>)
        requires
            self.wf(),
        ensures
            r is Some <==> self.in_bounds(x, y),
            match r {
                Some(c) => *c == self.pixel(x, y),
                None => !self.in_bounds(x, y),
            },
    {
        match self.pos_to_index(x, y) {
            Some(i) => Some(&self.values[i]),
            None => None,
        }
    }

    /// A mutable borrow of the color at (x, y); absent when the address is
    /// outside the grid, never a failure of the whole call.
    pub fn get_mut(&mut self, x: u32, y: u32) -> (r: Option<&mut Color>)
        requires
            old(self).wf(),
        ensures
            r is Some <==> old(self).in_bounds(x, y),
            final(self).spec_width() == old(self).spec_width(),
            final(self).spec_height() == old(self).spec_height(),
            final(self).wf(),
            match r {
                Some(c) => *c == old(self).pixel(x, y) && final(self).pixels() == old(
                    self,
                ).pixels().update(old(self).pos(x, y), *final(c)),
                None => *final(self) == *old(self),
            },
    {
        match self.pos_to_index(x, y) {
            Some(i) => Some(&mut self.values[i]),
            None => None,
        }
    }

    /// Writes the color at (x, y); an address outside the grid changes
    /// nothing.
    pub fn set(&mut self, color: Color, x: u32, y: u32)
        requires
            old(self).wf(),
        ensures
            final(self).wf(),
            final(self).spec_width() == old(self).spec_width(),
            final(self).spec_height() == old(self).spec_height(),
            old(self).in_bounds(x, y) ==> final(self).pixels() == old(self).pixels().update(
                old(self).pos(x, y),
                color,
            ),
            !old(self).in_bounds(x, y) ==> *final(self) == *old(self),
    {
        match self.pos_to_index(x, y) {
            Some(i) => {
                self.values[i] = color;
            },
            None => {},
        }
    }

    /// The grid contents, row-major.
    pub fn values(&self) -> (r: &[Color])
        ensures
            r@ == self.pixels(),
    {
        self.values.as_slice()
    }
}

/// A named, timed sequence of frames bound to one device's matrix geometry.
#[derive(Debug)]
pub struct Effect {
    pub name: String,
    pub author: String,
    pub icon: String,
    pub summary: String,
    device: Device,
    fps: u32,
    pub looped: bool,
    width: u32,
    height: u32,
    frames: Vec<EffectMatrix>,
}

impl Effect {
    /// The geometry comes from the bound device, the rate is in range, and
    /// every frame has the effect's fixed geometry.
    pub open spec fn wf(self) -> bool {
        &&& self.spec_device().spec_matrix() == Some((self.spec_width(), self.spec_height()))
        &&& FPS_MIN <= self.spec_fps() <= FPS_MAX
        &&& forall|k: int|
            0 <= k < self.spec_frames().len() ==> (#[trigger] self.spec_frames()[k]).wf()
                && self.spec_frames()[k].spec_width() == self.spec_width()
                && self.spec_frames()[k].spec_height() == self.spec_height()
    }

    pub closed spec fn spec_device(self) -> Device {
        self.device
    }

    pub closed spec fn spec_fps(self) -> u32 {
        self.fps
    }

    pub closed spec fn spec_width(self) -> u32 {
        self.width
    }

    pub closed spec fn spec_height(self) -> u32 {
        self.height
    }

    pub closed spec fn spec_frames(self) -> Seq<EffectMatrix> {
        self.frames@
    }

    pub closed spec fn spec_name(self) -> Seq<char> {
        self.name@
    }

    pub closed spec fn spec_author(self) -> Seq<char> {
        self.author@
    }

    pub closed spec fn spec_icon(self) -> Seq<char> {
        self.icon@
    }

    pub closed spec fn spec_summary(self) -> Seq<char> {
        self.summary@
    }

    pub closed spec fn spec_looped(self) -> bool {
        self.looped
    }

    /// Binds a new effect to a device: one with no lighting matrix is
    /// rejected with the unsupported-device error, never given a synthesized
    /// geometry. A fresh effect is named "Unnamed", runs at 1 frame per
    /// second, loops, and has no frames.
    pub fn new(device: Device, icon: String) -> (r: Result<Effect, PolychromaticError>)
        ensures
            match r {
                Ok(e) => {
                    &&& device.spec_matrix() is Some
                    &&& e.wf()
                    &&& e.spec_device() == device
                    &&& Some((e.spec_width(), e.spec_height())) == device.spec_matrix()
                    &&& e.spec_name() == "Unnamed"@
                    &&& e.spec_author() == Seq::<char>::empty()
                    &&& e.spec_icon() == icon@
                    &&& e.spec_summary() == Seq::<char>::empty()
                    &&& e.spec_fps() == 1u32
                    &&& e.spec_looped() == true
                    &&& e.spec_frames() == Seq::<EffectMatrix>::empty()
                },
                Err(err) => {
                    &&& device.spec_matrix() is None
                    &&& err == PolychromaticError::DeviceUnsupportedEffects(device)
                },
            },
    {
        let (width, height) = match device.matrix() {
            Some(wh) => wh,
            None => {
                return Err(PolychromaticError::DeviceUnsupportedEffects(device));
            },
        };
        Ok(
            Effect {
                name: "Unnamed".to_owned(),
                author: String::new(),
                icon,
                summary: String::new(),
                device,
                fps: 1,
                looped: true,
                width,
                height,
                frames: Vec::new(),
            },
        )
    }

    /// Sets the frame rate; values outside the valid range are rejected with
    /// the invalid-fps error, never clamped.
    pub fn set_fps(&mut self, fps: u32) -> (r: Result<(), PolychromaticError>)
        ensures
            FPS_MIN <= fps <= FPS_MAX ==> r is Ok && final(self).spec_fps() == fps,
            !(FPS_MIN <= fps <= FPS_MAX) ==> r == Err::<(), PolychromaticError>(
                PolychromaticError::InvalidFPS(fps),
            ) && final(self).spec_fps() == old(self).spec_fps(),
            final(self).spec_name() == old(self).spec_name(),
            final(self).spec_author() == old(self).spec_author(),
            final(self).spec_icon() == old(self).spec_icon(),
            final(self).spec_summary() == old(self).spec_summary(),
            final(self).spec_looped() == old(self).spec_looped(),
            final(self).spec_device() == old(self).spec_device(),
            final(self).spec_width() == old(self).spec_width(),
            final(self).spec_height() == old(self).spec_height(),
            final(self).spec_frames() == old(self).spec_frames(),
            old(self).wf() && FPS_MIN <= fps <= FPS_MAX ==> final(self).wf(),
            old(self).wf() && !(FPS_MIN <= fps <= FPS_MAX) ==> final(self).wf(),
    {
        if fps < FPS_MIN || fps > FPS_MAX {
            return Err(PolychromaticError::InvalidFPS(fps));
        }
        self.fps = fps;
        proof {
            if old(self).wf() {
                assert(self.spec_frames() == old(self).spec_frames());
                assert(self.wf());
            }
        }
        Ok(())
    }

    /// The configured frame rate.
    pub fn fps(&self) -> (f: u32)
        ensures
            f == self.spec_fps(),
    {
        self.fps
    }

    /// The device the effect is bound to.
    pub fn device(&self) -> (d: &Device)
        ensures
            *d == self.spec_device(),
    {
        &self.device
    }

    /// The number of columns of every frame.
    pub fn width(&self) -> (w: u32)
        ensures
            w == self.spec_width(),
    {
        self.width
    }

    /// The number of rows of every frame.
    pub fn height(&self) -> (h: u32)
        ensures
            h == self.spec_height(),
    {
        self.height
    }

    /// The frames painted so far, in order.
    pub fn frames(&self) -> (r: &[EffectMatrix])
        ensures
            r@ == self.spec_frames(),
    {
        self.frames.as_slice()
    }

    /// Appends one fresh black-filled frame of the effect's geometry and
    /// returns it for in-place painting; this is the only way frames are
    /// added, and they cannot be removed or reordered.
    pub fn new_frame(&mut self) -> (r: &mut EffectMatrix)
        requires
            old(self).wf(),
        ensures
            r.wf(),
            r.spec_width() == old(self).spec_width(),
            r.spec_height() == old(self).spec_height(),
            r.all_black(),
            final(self).spec_frames() =~= old(self).spec_frames().push(*final(r)),
            final(self).spec_device() == old(self).spec_device(),
            final(self).spec_fps() == old(self).spec_fps(),
            final(self).spec_width() == old(self).spec_width(),
            final(self).spec_height() == old(self).spec_height(),
            final(self).spec_name() == old(self).spec_name(),
            final(self).spec_author() == old(self).spec_author(),
            final(self).spec_icon() == old(self).spec_icon(),
            final(self).spec_summary() == old(self).spec_summary(),
            final(self).spec_looped() == old(self).spec_looped(),
    {
        proof {
            crate::device::lemma_matrix_geometry_bounds(self.device);
            assert(self.device.spec_matrix() == Some((self.width, self.height)));
            let w = self.width as int;
            let h = self.height as int;
            assert(w * h <= 207) by (nonlinear_arith)
                requires
                    1 <= w <= 23,
                    1 <= h <= 9,
            ;
        }
        let m = EffectMatrix::new(self.width, self.height);
        self.frames.push(m);
        let n = self.frames.len();
        &mut self.frames[n - 1]
    }
}

impl Effect {
    /// Serializes the effect into the document the front end consumes, with
    /// the given already-resolved icon path. Only pixels that do not quantize
    /// to black are emitted, keyed by row then column; every frame appears,
    /// an all-black one as an empty mapping.
    pub fn to_effect_json(&self, icon: &str) -> (r: String)
        requires
            self.wf(),
        ensures
            r@ == spec_effect_document(*self, icon@),
    {
        let mut out: Vec<char> = Vec::new();
        push_str_chars(&mut out, "{\"name\":");
        push_quoted(&mut out, self.name.as_str());
        push_str_chars(&mut out, ",\"type\":3,\"author\":");
        push_quoted(&mut out, self.author.as_str());
        push_str_chars(&mut out, ",\"icon\":");
        push_quoted(&mut out, icon);
        push_str_chars(&mut out, ",\"summary\":");
        push_quoted(&mut out, self.summary.as_str());
        push_str_chars(&mut out, ",\"map_device\":");
        let device_name = self.device().display_name();
        push_quoted(&mut out, device_name.as_str());
        push_str_chars(&mut out, ",\"map_device_icon\":");
        push_quoted(&mut out, self.device().icon());
        push_str_chars(&mut out, ",\"map_graphic\":");
        push_quoted(&mut out, "blackwidow_v3_en_US.svg");
        push_str_chars(&mut out, ",\"map_cols\":");
        push_dec(&mut out, self.width());
        push_str_chars(&mut out, ",\"map_rows\":");
        push_dec(&mut out, self.height());
        push_str_chars(&mut out, ",\"save_format\":8,\"revision\":1,\"fps\":");
        push_dec(&mut out, self.fps());
        push_str_chars(&mut out, ",\"loop\":");
        if self.looped {
            push_str_chars(&mut out, "true");
        } else {
            push_str_chars(&mut out, "false");
        }
        push_str_chars(&mut out, ",\"frames\":[");
        let frames = self.frames();
        let ghost fseq = self.spec_frames();
        let mut k: usize = 0;
        let ghost before_frames = out@;
        proof {
            assert(join_comma(frame_parts_upto(fseq, 0)) =~= Seq::<char>::empty());
            assert(out@ =~= before_frames + join_comma(frame_parts_upto(fseq, 0)));
        }
        while k < frames.len()
            invariant
                k <= frames@.len(),
                frames@ == fseq,
                self.wf(),
                fseq == self.spec_frames(),
                out@ == before_frames + join_comma(frame_parts_upto(fseq, k as int)),
            decreases frames@.len() - k,
        {
            let ghost pre = out@;
            if k > 0 {
                out.push(',');
            }
            let mut frame_chars = frame_to_json(&frames[k]);
            out.append(&mut frame_chars);
            proof {
                let parts = frame_parts_upto(fseq, k as int);
                let parts2 = frame_parts_upto(fseq, k + 1);
                assert(parts2 == parts.push(spec_frame_json(fseq[k as int])));
                assert(parts2.drop_last() =~= parts);
                lemma_frame_parts_upto(fseq, k as int);
                if k == 0 {
                    assert(join_comma(parts2) == parts2[0]);
                    assert(out@ =~= before_frames + join_comma(parts2));
                } else {
                    assert(join_comma(parts2) == join_comma(parts) + seq![','] + parts2.last());
                    assert(out@ =~= before_frames + join_comma(parts2));
                }
            }
            k += 1;
        }
        push_str_chars(&mut out, "]}");
        proof {
            assert(frame_parts_upto(fseq, fseq.len() as int) == frame_parts(fseq));
            assert(out@ =~= spec_effect_document(*self, icon@));
        }
        chars_to_string(&out)
    }
}

} // verus!
