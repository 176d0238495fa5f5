//! A sprite cut from a horizontal strip of equally sized frames.
//!
//! The strip lies in a texture: its first frame has its top left corner at
//! (`x`, `y`), every frame is `width` by `height` texels, and frame `i` starts
//! `i * width` texels to the right of the first. The sprite shows one frame at
//! a time and steps through the strip in a cycle.

use vstd::arithmetic::div_mod::{
    lemma_add_mod_noop_right, lemma_mod_add_multiples_vanish, lemma_small_mod,
};
use vstd::prelude::*;

verus! {

/// The mathematical model of a [`Sprite`]: where the strip starts in the
/// texture, the size of one frame, how many frames the strip holds, and the
/// frame that is shown.
pub struct SpriteView {
    pub x: nat,
    pub y: nat,
    pub width: nat,
    pub height: nat,
    pub frames: nat,
    pub frame: nat,
}

impl SpriteView {
    /// The shown frame is one of the strip's frames. A strip without frames
    /// can only rest at index 0.
    pub open spec fn wf(self) -> bool {
        if self.frames == 0 {
            self.frame == 0
        } else {
            self.frame < self.frames
        }
    }

    /// The sprite one frame later: the index moves on by one and wraps to 0
    /// behind the last frame.
    pub open spec fn advance(self) -> SpriteView
        recommends
            self.frames > 0,
    {
        SpriteView { frame: (self.frame + 1) % self.frames, ..self }
    }

    /// The sprite `n` frames later.
    pub open spec fn after(self, n: nat) -> SpriteView
        recommends
            self.frames > 0,
        decreases n,
    {
        if n == 0 {
            self
        } else {
            self.advance().after((n - 1) as nat)
        }
    }

    /// Left edge, in texels, of the shown frame.
    pub open spec fn frame_left(self) -> nat {
        self.x + self.width * self.frame
    }

    /// Right edge, in texels, of the whole strip.
    pub open spec fn strip_right(self) -> nat {
        self.x + self.width * self.frames
    }

    /// One step never leaves the strip, wherever it starts.
    pub proof fn lemma_advance_wf(self)
        requires
            self.frames > 0,
        ensures
            self.advance().wf(),
            self.advance().frames == self.frames,
    {
    }

    /// `n` steps from frame `f` end on frame `(f + n) mod frames`, and change
    /// nothing else.
    pub proof fn lemma_after(self, n: nat)
        requires
            self.wf(),
            self.frames > 0,
        ensures
            self.after(n) == (SpriteView { frame: (self.frame + n) % self.frames, ..self }),
            self.after(n).wf(),
        decreases n,
    {
        if n == 0 {
            lemma_small_mod(self.frame, self.frames);
        } else {
            let next = self.advance();
            let rest = (n - 1) as nat;
            self.lemma_advance_wf();
            next.lemma_after(rest);
            lemma_add_mod_noop_right(rest as int, (self.frame + 1) as int, self.frames as int);
        }
    }

    /// The animation is a cycle: as many steps as the strip has frames lead
    /// back to the frame they started from.
    pub proof fn lemma_full_cycle(self)
        requires
            self.wf(),
            self.frames > 0,
        ensures
            self.after(self.frames) == self,
    {
        self.lemma_after(self.frames);
        lemma_mod_add_multiples_vanish(self.frame as int, self.frames as int);
        lemma_small_mod(self.frame, self.frames);
    }

    /// The shown frame lies inside the strip: it ends no further right than
    /// the strip does.
    pub proof fn lemma_frame_within_strip(self)
        requires
            self.wf(),
            self.frames > 0,
        ensures
            self.frame_left() + self.width <= self.strip_right(),
    {
        assert(self.width * self.frame + self.width <= self.width * self.frames)
            by (nonlinear_arith)
            requires
                self.frame + 1 <= self.frames,
        ;
    }
}

/// The region of the texture that one frame occupies, in texels. The left edge
/// is wider than the other fields because it is a sum of products of them.
#[derive(Clone, Copy, Debug, PartialEq, Eq, Structural)]
pub struct SourceRect {
    pub x: u64,
    pub y: u32,
    pub width: u32,
    pub height: u32,
}

/// An animated sprite: the geometry of its frame strip and the index of the
/// frame that is shown.
#[derive(Clone, Copy, Debug, PartialEq, Eq)]
pub struct Sprite {
    x: u32,
    y: u32,
    width: u32,
    height: u32,
    frames: u32,
    current_frame: u32,
}

impl View for Sprite {
    type V = SpriteView;

    closed spec fn view(&self) -> SpriteView {
        SpriteView {
            x: self.x as nat,
            y: self.y as nat,
            width: self.width as nat,
            height: self.height as nat,
            frames: self.frames as nat,
            frame: self.current_frame as nat,
        }
    }
}

impl Sprite {
    #[verifier::type_invariant]
    spec fn inv(self) -> bool {
        self@.wf()
    }

    /// A sprite over the strip that starts at (`x`, `y`) and holds `frames`
    /// frames of `width` by `height` texels, showing the first frame.
    pub fn new(x: u32, y: u32, width: u32, height: u32, frames: u32) -> (sprite: Sprite)
        ensures
            sprite@ == (SpriteView {
                x: x as nat,
                y: y as nat,
                width: width as nat,
                height: height as nat,
                frames: frames as nat,
                frame: 0,
            }),
            sprite@.wf(),
    {
        Sprite { x, y, width, height, frames, current_frame: 0 }
    }

    /// Moves on to the next frame of the strip, back to the first one behind
    /// the last. A strip without frames has no next frame.
    pub fn advance(&mut self)
        requires
            old(self)@.frames > 0,
        ensures
            final(self)@ == old(self)@.advance(),
            final(self)@.wf(),
    {
        proof {
            use_type_invariant(&*self);
        }
        let next: u32 = (self.current_frame + 1) % self.frames;
        self.current_frame = next;
    }

    /// The texture region of the shown frame. While the strip has frames, the
    /// region lies inside the strip.
    pub fn source_rect(&self) -> (rect: SourceRect)
        ensures
            self@.wf(),
            rect.x == self@.frame_left(),
            rect.y == self@.y,
            rect.width == self@.width,
            rect.height == self@.height,
            self@.frames > 0 ==> rect.x + rect.width <= self@.strip_right(),
    {
        proof {
            use_type_invariant(self);
            if self@.frames > 0 {
                self@.lemma_frame_within_strip();
            }
            assert(self.width * self.current_frame <= 0xffff_ffff * 0xffff_ffff)
                by (nonlinear_arith)
                requires
                    self.width <= 0xffff_ffff,
                    self.current_frame <= 0xffff_ffff,
            ;
        }
        let offset: u64 = self.width as u64 * self.current_frame as u64;
        SourceRect { x: self.x as u64 + offset, y: self.y, width: self.width, height: self.height }
    }

    /// Horizontal position of the strip's first frame in the texture.
    pub fn x(&self) -> (x: u32)
        ensures
            x == self@.x,
    {
        self.x
    }

    /// Vertical position of the strip in the texture.
    pub fn y(&self) -> (y: u32)
        ensures
            y == self@.y,
    {
        self.y
    }

    /// Width of one frame.
    pub fn width(&self) -> (width: u32)
        ensures
            width == self@.width,
    {
        self.width
    }

    /// Height of one frame.
    pub fn height(&self) -> (height: u32)
        ensures
            height == self@.height,
    {
        self.height
    }

    /// Number of frames in the strip.
    pub fn frames(&self) -> (frames: u32)
        ensures
            frames == self@.frames,
    {
        self.frames
    }

    /// Index of the shown frame, which is always one of the strip's frames.
    pub fn current_frame(&self) -> (frame: u32)
        ensures
            frame == self@.frame,
            self@.wf(),
    {
        proof {
            use_type_invariant(self);
        }
        self.current_frame
    }
}

} // verus!
