//! The camera/viewport transform engine.
//!
//! A [`Camera`] is one independently panned and zoomed rectangular
//! viewport: it holds the transform state (offset, scale, and their
//! limits) and the viewport's screen rectangle, and offers coordinate
//! transforms, panning, zoom-about-a-point, limit fitting and containment
//! tests.  A [`CameraManager`] owns one camera per named viewport and is
//! the single point of access for the rest of the system.
//!
//! All arithmetic is exact rational arithmetic; an operation whose exact
//! result outgrows the scalar representation fails with
//! [`CameraError::Overflow`] and leaves the camera unchanged.

use vstd::prelude::*;

use crate::position::Position;
use crate::rational::{
    lemma_q_add_sub_congr, lemma_q_eq_trans, lemma_q_le_congr, lemma_q_norm_eq, lemma_q_ops_wf,
    lemma_q_pos_mul_div, q_add, q_clamp, q_div, q_eq, q_fits, q_int, q_le, q_lt, q_max, q_min,
    q_mul, q_norm, q_sub, q_wf, q_zero, Rational, Q,
};

verus! {

/// The screen position `p * scale + offset` of a content point `p`, one
/// axis at a time.
pub open spec fn forward_q(p: Q, scale: Q, offset: Q) -> Q {
    q_add(q_mul(p, scale), offset)
}

/// The content position `(p - offset) / scale` of a screen point `p`,
/// one axis at a time.
pub open spec fn inverse_q(p: Q, scale: Q, offset: Q) -> Q {
    q_div(q_sub(p, offset), scale)
}

/// Both components of `viewport` and of `content` are strictly positive.
pub open spec fn positive_dims(viewport: Position, content: Position) -> bool {
    &&& q_lt(q_zero(), viewport.x@)
    &&& q_lt(q_zero(), viewport.y@)
    &&& q_lt(q_zero(), content.x@)
    &&& q_lt(q_zero(), content.y@)
}

/// The smallest allowed zoom: the scale at which the content exactly
/// covers the viewport on the tighter axis,
/// `max(viewport.w / content.w, viewport.h / content.h)`.
pub open spec fn limits_scale_min(vw: Q, vh: Q, cw: Q, ch: Q) -> Q {
    q_max(q_norm(q_div(vw, cw)), q_norm(q_div(vh, ch)))
}

/// The largest allowed zoom: five times the smallest.
pub open spec fn limits_scale_max(vw: Q, vh: Q, cw: Q, ch: Q) -> Q {
    q_norm(q_mul(limits_scale_min(vw, vh, cw, ch), q_int(5)))
}

/// The pan floor on one axis: `min(viewport - scale_min * content, 0)`.
pub open spec fn limits_offset_min(v: Q, c: Q, smin: Q) -> Q {
    q_min(q_norm(q_sub(v, q_norm(q_mul(smin, c)))), q_zero())
}

/// Whether every exact intermediate of [`Camera::set_limits`] has a
/// machine representation.
pub open spec fn limits_fits(vw: Q, vh: Q, cw: Q, ch: Q) -> bool {
    let smin = limits_scale_min(vw, vh, cw, ch);
    &&& q_fits(q_div(vw, cw))
    &&& q_fits(q_div(vh, ch))
    &&& q_fits(q_mul(smin, q_int(5)))
    &&& q_fits(q_mul(smin, cw))
    &&& q_fits(q_sub(vw, q_norm(q_mul(smin, cw))))
    &&& q_fits(q_mul(smin, ch))
    &&& q_fits(q_sub(vh, q_norm(q_mul(smin, ch))))
}

/// The scale after zooming `c` by `factor`: multiplied, then clamped
/// into the allowed range.
pub open spec fn zoom_scale(c: Camera, f: Q) -> Q {
    q_clamp(q_norm(q_mul(c.scale@, f)), c.scale_min@, c.scale_max@)
}

/// The effective scale ratio of a zoom: clamped new scale over old.
pub open spec fn zoom_ratio(c: Camera, f: Q) -> Q {
    q_norm(q_div(zoom_scale(c, f), c.scale@))
}

/// The recentred pan floor on one axis: the floor is rescaled anchored
/// at the far viewport edge, `v - (v - omin) * ratio`, then kept at or
/// below zero.
pub open spec fn zoom_offset_min_axis(v: Q, omin: Q, ratio: Q) -> Q {
    q_min(q_norm(q_sub(v, q_norm(q_mul(q_norm(q_sub(v, omin)), ratio)))), q_zero())
}

/// The offset on one axis that keeps the content point under `t` fixed:
/// `t - (t - o) * ratio`, clamped into `[lo, hi]`.
pub open spec fn zoom_offset_axis(t: Q, o: Q, ratio: Q, lo: Q, hi: Q) -> Q {
    q_clamp(q_norm(q_sub(t, q_norm(q_mul(q_norm(q_sub(t, o)), ratio)))), lo, hi)
}

/// Whether every exact intermediate of [`Camera::zoom`] has a machine
/// representation.
pub open spec fn zoom_fits(c: Camera, f: Q, t: Position, recenter: bool) -> bool {
    let ns = zoom_scale(c, f);
    let ratio = zoom_ratio(c, f);
    &&& q_fits(q_mul(c.scale@, f))
    &&& q_fits(q_div(ns, c.scale@))
    &&& (recenter ==> {
        &&& q_fits(q_sub(c.viewport_size.x@, c.offset_min.x@))
        &&& q_fits(q_mul(q_norm(q_sub(c.viewport_size.x@, c.offset_min.x@)), ratio))
        &&& q_fits(
            q_sub(
                c.viewport_size.x@,
                q_norm(q_mul(q_norm(q_sub(c.viewport_size.x@, c.offset_min.x@)), ratio)),
            ),
        )
        &&& q_fits(q_sub(c.viewport_size.y@, c.offset_min.y@))
        &&& q_fits(q_mul(q_norm(q_sub(c.viewport_size.y@, c.offset_min.y@)), ratio))
        &&& q_fits(
            q_sub(
                c.viewport_size.y@,
                q_norm(q_mul(q_norm(q_sub(c.viewport_size.y@, c.offset_min.y@)), ratio)),
            ),
        )
    })
    &&& q_fits(q_sub(t.x@, c.offset.x@))
    &&& q_fits(q_mul(q_norm(q_sub(t.x@, c.offset.x@)), ratio))
    &&& q_fits(q_sub(t.x@, q_norm(q_mul(q_norm(q_sub(t.x@, c.offset.x@)), ratio))))
    &&& q_fits(q_sub(t.y@, c.offset.y@))
    &&& q_fits(q_mul(q_norm(q_sub(t.y@, c.offset.y@)), ratio))
    &&& q_fits(q_sub(t.y@, q_norm(q_mul(q_norm(q_sub(t.y@, c.offset.y@)), ratio))))
}

/// What the rendering boundary needs to draw content under a camera: a
/// screen destination and a uniform scale for both axes.
#[derive(Clone, Copy, Debug, PartialEq, Eq, Structural)]
pub struct DrawParam {
    pub dest: Position,
    pub scale: Rational,
}

/// Why a camera operation was refused.  The camera is left exactly as it
/// was in either case.
#[derive(Clone, Copy, Debug, PartialEq, Eq, Structural)]
pub enum CameraError {
    /// A viewport or content dimension was zero or negative where a
    /// positive one is needed.
    InvalidDimension,
    /// An exact intermediate result has no machine representation.
    Overflow,
}

/// One independently panned/zoomed rectangular viewport.
///
/// `offset` is the translation applied after scaling; `scale` the zoom
/// factor; `offset_min ..= offset_max` and `scale_min ..= scale_max` the
/// clamp boxes that [`Camera::set_limits`] derives from the viewport and
/// content sizes; `viewport_position` and `viewport_size` the camera's
/// screen rectangle, used for containment tests.
#[derive(Clone, Copy, Debug, PartialEq, Eq, Structural)]
pub struct Camera {
    pub offset: Position,
    pub scale: Rational,
    pub offset_min: Position,
    pub offset_max: Position,
    pub scale_min: Rational,
    pub scale_max: Rational,
    pub viewport_position: Position,
    pub viewport_size: Position,
}

impl Camera {
    /// Structural soundness of a camera: every scalar is a well-formed
    /// fraction, scales are positive, the scale range and the pan box are
    /// ordered, and the pan box never lets content be dragged past its
    /// top-left edge (`offset_max == (0, 0)`).
    pub open spec fn wf(self) -> bool {
        &&& self.offset.wf()
        &&& self.offset_min.wf()
        &&& self.offset_max.wf()
        &&& self.scale.wf()
        &&& self.scale_min.wf()
        &&& self.scale_max.wf()
        &&& self.viewport_position.wf()
        &&& self.viewport_size.wf()
        &&& q_lt(q_zero(), self.scale@)
        &&& q_lt(q_zero(), self.scale_min@)
        &&& q_le(self.scale_min@, self.scale_max@)
        &&& q_eq(self.offset_max.x@, q_zero())
        &&& q_eq(self.offset_max.y@, q_zero())
        &&& q_le(self.offset_min.x@, self.offset_max.x@)
        &&& q_le(self.offset_min.y@, self.offset_max.y@)
    }

    /// The camera's transform state respects its own limits.
    pub open spec fn in_limits(self) -> bool {
        &&& q_le(self.scale_min@, self.scale@)
        &&& q_le(self.scale@, self.scale_max@)
        &&& q_le(self.offset_min.x@, self.offset.x@)
        &&& q_le(self.offset.x@, self.offset_max.x@)
        &&& q_le(self.offset_min.y@, self.offset.y@)
        &&& q_le(self.offset.y@, self.offset_max.y@)
    }

    /// A freshly created camera: unit scale, no pan, limits collapsed to
    /// the origin, a unit viewport at the origin.
    pub open spec fn is_default(self) -> bool {
        &&& self.offset.x@ == q_zero()
        &&& self.offset.y@ == q_zero()
        &&& self.scale@ == q_int(1)
        &&& self.offset_min.x@ == q_zero()
        &&& self.offset_min.y@ == q_zero()
        &&& self.offset_max.x@ == q_zero()
        &&& self.offset_max.y@ == q_zero()
        &&& self.scale_min@ == q_int(1)
        &&& self.scale_max@ == q_int(1)
        &&& self.viewport_position.x@ == q_zero()
        &&& self.viewport_position.y@ == q_zero()
        &&& self.viewport_size.x@ == q_int(1)
        &&& self.viewport_size.y@ == q_int(1)
    }

    pub fn new() -> (r: Camera)
        ensures
            r.wf(),
            r.in_limits(),
            r.is_default(),
    {
        Camera {
            offset: Position::origin(),
            scale: Rational::one(),
            offset_min: Position::origin(),
            offset_max: Position::origin(),
            scale_min: Rational::one(),
            scale_max: Rational::one(),
            viewport_position: Position::origin(),
            viewport_size: Position::from_ints(1, 1),
        }
    }

    /// Reset the view: zoom all the way out and pan back to the origin.
    pub fn zoom_out(&mut self)
        requires
            old(self).wf(),
        ensures
            final(self).wf(),
            final(self).in_limits(),
            final(self).scale == old(self).scale_min,
            final(self).offset.x@ == q_zero(),
            final(self).offset.y@ == q_zero(),
            final(self).offset_min == old(self).offset_min,
            final(self).offset_max == old(self).offset_max,
            final(self).scale_min == old(self).scale_min,
            final(self).scale_max == old(self).scale_max,
            final(self).viewport_position == old(self).viewport_position,
            final(self).viewport_size == old(self).viewport_size,
    {
        self.scale = self.scale_min;
        self.offset = Position::origin();
        proof {
            lemma_q_le_congr(
                self.offset_min.x@,
                self.offset.x@,
                self.offset_min.x@,
                self.offset_max.x@,
            );
            lemma_q_le_congr(
                self.offset_min.y@,
                self.offset.y@,
                self.offset_min.y@,
                self.offset_max.y@,
            );
            lemma_q_le_congr(
                self.offset.x@,
                self.offset_max.x@,
                self.offset_max.x@,
                self.offset_max.x@,
            );
            lemma_q_le_congr(
                self.offset.y@,
                self.offset_max.y@,
                self.offset_max.y@,
                self.offset_max.y@,
            );
        }
    }

    /// Move the view by `delta` and clamp the offset back into its pan
    /// box, component by component.  Fails only when an exact sum has no
    /// machine representation, and then changes nothing.
    pub fn pan(&mut self, delta: &Position) -> (r: Result<(), CameraError>)
        requires
            old(self).wf(),
            delta.wf(),
        ensures
            r is Ok <==> q_fits(q_add(old(self).offset.x@, delta.x@)) && q_fits(
                q_add(old(self).offset.y@, delta.y@),
            ),
            match r {
                Ok(()) => {
                    &&& final(self).wf()
                    &&& final(self).offset.x@ == q_clamp(
                        q_norm(q_add(old(self).offset.x@, delta.x@)),
                        old(self).offset_min.x@,
                        old(self).offset_max.x@,
                    )
                    &&& final(self).offset.y@ == q_clamp(
                        q_norm(q_add(old(self).offset.y@, delta.y@)),
                        old(self).offset_min.y@,
                        old(self).offset_max.y@,
                    )
                    &&& q_le(final(self).offset_min.x@, final(self).offset.x@)
                    &&& q_le(final(self).offset.x@, final(self).offset_max.x@)
                    &&& q_le(final(self).offset_min.y@, final(self).offset.y@)
                    &&& q_le(final(self).offset.y@, final(self).offset_max.y@)
                    &&& final(self).scale == old(self).scale
                    &&& final(self).offset_min == old(self).offset_min
                    &&& final(self).offset_max == old(self).offset_max
                    &&& final(self).scale_min == old(self).scale_min
                    &&& final(self).scale_max == old(self).scale_max
                    &&& final(self).viewport_position == old(self).viewport_position
                    &&& final(self).viewport_size == old(self).viewport_size
                },
                Err(e) => e == CameraError::Overflow && *final(self) == *old(self),
            },
    {
        let sx = match self.offset.x.add(&delta.x) {
            Some(v) => v,
            None => {
                return Err(CameraError::Overflow);
            },
        };
        let sy = match self.offset.y.add(&delta.y) {
            Some(v) => v,
            None => {
                return Err(CameraError::Overflow);
            },
        };
        self.offset.x = sx.clamp(&self.offset_min.x, &self.offset_max.x);
        self.offset.y = sy.clamp(&self.offset_min.y, &self.offset_max.y);
        Ok(())
    }

    /// Recompute the scale range and the pan box from the current
    /// viewport and content dimensions; the scale and offset themselves
    /// are left untouched.  Must be called whenever the content changes
    /// or the window is resized.  Rejects non-positive dimensions with
    /// [`CameraError::InvalidDimension`]; on any error the camera is
    /// unchanged.
    pub fn set_limits(
        &mut self,
        viewport_size: &Position,
        content_size: &Position,
        viewport_position: &Position,
    ) -> (r: Result<(), CameraError>)
        requires
            old(self).wf(),
            viewport_size.wf(),
            content_size.wf(),
            viewport_position.wf(),
        ensures
            r == Err::<(), CameraError>(CameraError::InvalidDimension) <==> !positive_dims(
                *viewport_size,
                *content_size,
            ),
            r is Ok <==> positive_dims(*viewport_size, *content_size) && limits_fits(
                viewport_size.x@,
                viewport_size.y@,
                content_size.x@,
                content_size.y@,
            ),
            match r {
                Ok(()) => {
                    &&& final(self).wf()
                    &&& final(self).scale_min@ == limits_scale_min(
                        viewport_size.x@,
                        viewport_size.y@,
                        content_size.x@,
                        content_size.y@,
                    )
                    &&& final(self).scale_max@ == limits_scale_max(
                        viewport_size.x@,
                        viewport_size.y@,
                        content_size.x@,
                        content_size.y@,
                    )
                    &&& final(self).offset_min.x@ == limits_offset_min(
                        viewport_size.x@,
                        content_size.x@,
                        final(self).scale_min@,
                    )
                    &&& final(self).offset_min.y@ == limits_offset_min(
                        viewport_size.y@,
                        content_size.y@,
                        final(self).scale_min@,
                    )
                    &&& final(self).offset_max.x@ == q_zero()
                    &&& final(self).offset_max.y@ == q_zero()
                    &&& final(self).viewport_size == *viewport_size
                    &&& final(self).viewport_position == *viewport_position
                    &&& final(self).scale == old(self).scale
                    &&& final(self).offset == old(self).offset
                    &&& q_eq(q_mul(final(self).scale_min@, content_size.x@), viewport_size.x@)
                        || q_eq(q_mul(final(self).scale_min@, content_size.y@), viewport_size.y@)
                    &&& q_le(viewport_size.x@, q_mul(final(self).scale_min@, content_size.x@))
                    &&& q_le(viewport_size.y@, q_mul(final(self).scale_min@, content_size.y@))
                },
                Err(e) => (e == CameraError::InvalidDimension || e == CameraError::Overflow)
                    && *final(self) == *old(self),
            },
    {
        if !(viewport_size.x.is_positive() && viewport_size.y.is_positive()
            && content_size.x.is_positive() && content_size.y.is_positive()) {
            return Err(CameraError::InvalidDimension);
        }
        let sx = match viewport_size.x.div(&content_size.x) {
            Some(v) => v,
            None => {
                return Err(CameraError::Overflow);
            },
        };
        let sy = match viewport_size.y.div(&content_size.y) {
            Some(v) => v,
            None => {
                return Err(CameraError::Overflow);
            },
        };
        let smin = sx.max(&sy);
        let five = Rational::from_int(5);
        let smax = match smin.mul(&five) {
            Some(v) => v,
            None => {
                return Err(CameraError::Overflow);
            },
        };
        let px = match smin.mul(&content_size.x) {
            Some(v) => v,
            None => {
                return Err(CameraError::Overflow);
            },
        };
        let tx = match viewport_size.x.sub(&px) {
            Some(v) => v,
            None => {
                return Err(CameraError::Overflow);
            },
        };
        let py = match smin.mul(&content_size.y) {
            Some(v) => v,
            None => {
                return Err(CameraError::Overflow);
            },
        };
        let ty = match viewport_size.y.sub(&py) {
            Some(v) => v,
            None => {
                return Err(CameraError::Overflow);
            },
        };
        let zero = Rational::zero();
        let ominx = tx.min(&zero);
        let ominy = ty.min(&zero);
        proof {
            lemma_scale_min_facts(
                viewport_size.x@,
                viewport_size.y@,
                content_size.x@,
                content_size.y@,
            );
        }
        self.viewport_size = *viewport_size;
        self.viewport_position = *viewport_position;
        self.scale_min = smin;
        self.scale_max = smax;
        self.offset_min = Position::new(ominx, ominy);
        self.offset_max = Position::origin();
        Ok(())
    }

    /// Specialised limit-setter for auto-fit panels (the text window):
    /// lock the scale range to the horizontal fit
    /// `viewport.w / content.w` (no independent zoom), allow vertical
    /// panning over `[min(viewport.h - content.h, 0), 0]`, and pan at
    /// once so that `indicator_offset_y` stays visible (clamped
    /// pan-to-cursor); horizontal panning collapses to zero.
    pub fn scale_to_fit_horizontal(
        &mut self,
        viewport_size: &Position,
        content_size: &Position,
        viewport_position: &Position,
        indicator_offset_y: &Rational,
    ) -> (r: Result<(), CameraError>)
        requires
            old(self).wf(),
            viewport_size.wf(),
            content_size.wf(),
            viewport_position.wf(),
            indicator_offset_y.wf(),
        ensures
            r == Err::<(), CameraError>(CameraError::InvalidDimension) <==> !positive_dims(
                *viewport_size,
                *content_size,
            ),
            r is Ok <==> positive_dims(*viewport_size, *content_size) && q_fits(
                q_div(viewport_size.x@, content_size.x@),
            ) && q_fits(q_sub(viewport_size.y@, content_size.y@)),
            match r {
                Ok(()) => {
                    &&& final(self).wf()
                    &&& final(self).in_limits()
                    &&& final(self).scale@ == q_norm(
                        q_div(viewport_size.x@, content_size.x@),
                    )
                    &&& final(self).scale_min == final(self).scale
                    &&& final(self).scale_max == final(self).scale
                    &&& q_eq(q_mul(final(self).scale@, content_size.x@), viewport_size.x@)
                    &&& final(self).offset_min.y@ == q_min(
                        q_norm(q_sub(viewport_size.y@, content_size.y@)),
                        q_zero(),
                    )
                    &&& final(self).offset.y@ == q_clamp(
                        indicator_offset_y@,
                        final(self).offset_min.y@,
                        q_zero(),
                    )
                    &&& final(self).offset.x@ == q_zero()
                    &&& final(self).offset_min.x@ == q_zero()
                    &&& final(self).offset_max.x@ == q_zero()
                    &&& final(self).offset_max.y@ == q_zero()
                    &&& final(self).viewport_size == *viewport_size
                    &&& final(self).viewport_position == *viewport_position
                },
                Err(e) => (e == CameraError::InvalidDimension || e == CameraError::Overflow)
                    && *final(self) == *old(self),
            },
    {
        if !(viewport_size.x.is_positive() && viewport_size.y.is_positive()
            && content_size.x.is_positive() && content_size.y.is_positive()) {
            return Err(CameraError::InvalidDimension);
        }
        let s = match viewport_size.x.div(&content_size.x) {
            Some(v) => v,
            None => {
                return Err(CameraError::Overflow);
            },
        };
        let t = match viewport_size.y.sub(&content_size.y) {
            Some(v) => v,
            None => {
                return Err(CameraError::Overflow);
            },
        };
        let zero = Rational::zero();
        let ominy = t.min(&zero);
        let offy = indicator_offset_y.clamp(&ominy, &zero);
        proof {
            lemma_q_pos_mul_div(viewport_size.x@, content_size.x@);
            lemma_q_norm_eq(q_div(viewport_size.x@, content_size.x@));
            lemma_q_le_congr(
                q_zero(),
                s@,
                q_zero(),
                q_div(viewport_size.x@, content_size.x@),
            );
            crate::rational::lemma_q_mul_congr(
                s@,
                content_size.x@,
                q_div(viewport_size.x@, content_size.x@),
                content_size.x@,
            );
            crate::rational::lemma_q_div_mul_cancel(viewport_size.x@, content_size.x@);
            lemma_q_ops_wf(s@, content_size.x@);
            lemma_q_ops_wf(q_div(viewport_size.x@, content_size.x@), content_size.x@);
            lemma_q_eq_trans(
                q_mul(s@, content_size.x@),
                q_mul(q_div(viewport_size.x@, content_size.x@), content_size.x@),
                viewport_size.x@,
            );
        }
        self.scale = s;
        self.scale_min = s;
        self.scale_max = s;
        self.offset = Position::new(zero, offy);
        self.offset_min = Position::new(zero, ominy);
        self.offset_max = Position::origin();
        self.viewport_size = *viewport_size;
        self.viewport_position = *viewport_position;
        Ok(())
    }

    /// Zoom about a screen point: multiply the scale by `factor`, clamp
    /// it into the allowed range, and recompute the offset so that the
    /// content point currently under `target` stays under `target`
    /// (up to the offset clamp).  When `recenter_offset_min` is set, the
    /// pan floor is first rescaled anchored at the far viewport edge.
    /// Fails only when an exact intermediate has no machine
    /// representation, and then changes nothing.
    pub fn zoom(
        &mut self,
        factor: &Rational,
        target: &Position,
        recenter_offset_min: bool,
    ) -> (r: Result<(), CameraError>)
        requires
            old(self).wf(),
            factor.wf(),
            target.wf(),
        ensures
            r is Ok <==> zoom_fits(*old(self), factor@, *target, recenter_offset_min),
            match r {
                Ok(()) => {
                    &&& final(self).wf()
                    &&& final(self).scale@ == zoom_scale(*old(self), factor@)
                    &&& q_le(final(self).scale_min@, final(self).scale@)
                    &&& q_le(final(self).scale@, final(self).scale_max@)
                    &&& final(self).offset_min.x@ == (if recenter_offset_min {
                        zoom_offset_min_axis(
                            old(self).viewport_size.x@,
                            old(self).offset_min.x@,
                            zoom_ratio(*old(self), factor@),
                        )
                    } else {
                        old(self).offset_min.x@
                    })
                    &&& final(self).offset_min.y@ == (if recenter_offset_min {
                        zoom_offset_min_axis(
                            old(self).viewport_size.y@,
                            old(self).offset_min.y@,
                            zoom_ratio(*old(self), factor@),
                        )
                    } else {
                        old(self).offset_min.y@
                    })
                    &&& final(self).offset.x@ == zoom_offset_axis(
                        target.x@,
                        old(self).offset.x@,
                        zoom_ratio(*old(self), factor@),
                        final(self).offset_min.x@,
                        old(self).offset_max.x@,
                    )
                    &&& final(self).offset.y@ == zoom_offset_axis(
                        target.y@,
                        old(self).offset.y@,
                        zoom_ratio(*old(self), factor@),
                        final(self).offset_min.y@,
                        old(self).offset_max.y@,
                    )
                    &&& q_le(final(self).offset_min.x@, final(self).offset.x@)
                    &&& q_le(final(self).offset.x@, final(self).offset_max.x@)
                    &&& q_le(final(self).offset_min.y@, final(self).offset.y@)
                    &&& q_le(final(self).offset.y@, final(self).offset_max.y@)
                    &&& final(self).scale_min == old(self).scale_min
                    &&& final(self).scale_max == old(self).scale_max
                    &&& final(self).offset_max == old(self).offset_max
                    &&& final(self).viewport_position == old(self).viewport_position
                    &&& final(self).viewport_size == old(self).viewport_size
                },
                Err(e) => e == CameraError::Overflow && *final(self) == *old(self),
            },
    {
        let prev = self.scale;
        let raw = match prev.mul(factor) {
            Some(v) => v,
            None => {
                return Err(CameraError::Overflow);
            },
        };
        let ns = raw.clamp(&self.scale_min, &self.scale_max);
        let ratio = match ns.div(&prev) {
            Some(v) => v,
            None => {
                return Err(CameraError::Overflow);
            },
        };
        let zero = Rational::zero();
        let mut ominx = self.offset_min.x;
        let mut ominy = self.offset_min.y;
        if recenter_offset_min {
            let ax = match self.viewport_size.x.sub(&self.offset_min.x) {
                Some(v) => v,
                None => {
                    return Err(CameraError::Overflow);
                },
            };
            let bx = match ax.mul(&ratio) {
                Some(v) => v,
                None => {
                    return Err(CameraError::Overflow);
                },
            };
            let cx = match self.viewport_size.x.sub(&bx) {
                Some(v) => v,
                None => {
                    return Err(CameraError::Overflow);
                },
            };
            ominx = cx.min(&zero);
            let ay = match self.viewport_size.y.sub(&self.offset_min.y) {
                Some(v) => v,
                None => {
                    return Err(CameraError::Overflow);
                },
            };
            let by = match ay.mul(&ratio) {
                Some(v) => v,
                None => {
                    return Err(CameraError::Overflow);
                },
            };
            let cy = match self.viewport_size.y.sub(&by) {
                Some(v) => v,
                None => {
                    return Err(CameraError::Overflow);
                },
            };
            ominy = cy.min(&zero);
        }
        let ux = match target.x.sub(&self.offset.x) {
            Some(v) => v,
            None => {
                return Err(CameraError::Overflow);
            },
        };
        let vx = match ux.mul(&ratio) {
            Some(v) => v,
            None => {
                return Err(CameraError::Overflow);
            },
        };
        let wx = match target.x.sub(&vx) {
            Some(v) => v,
            None => {
                return Err(CameraError::Overflow);
            },
        };
        let newoffx = wx.clamp(&ominx, &self.offset_max.x);
        let uy = match target.y.sub(&self.offset.y) {
            Some(v) => v,
            None => {
                return Err(CameraError::Overflow);
            },
        };
        let vy = match uy.mul(&ratio) {
            Some(v) => v,
            None => {
                return Err(CameraError::Overflow);
            },
        };
        let wy = match target.y.sub(&vy) {
            Some(v) => v,
            None => {
                return Err(CameraError::Overflow);
            },
        };
        let newoffy = wy.clamp(&ominy, &self.offset_max.y);
        proof {
            crate::rational::lemma_q_le_lt_trans(q_zero(), self.scale_min@, ns@);
            lemma_q_le_congr(ominx@, q_zero(), ominx@, self.offset_max.x@);
            lemma_q_le_congr(ominy@, q_zero(), ominy@, self.offset_max.y@);
        }
        self.scale = ns;
        self.offset_min = Position::new(ominx, ominy);
        self.offset = Position::new(newoffx, newoffy);
        Ok(())
    }

    /// Whether both exact intermediates of [`Camera::forward_transform`]
    /// have a machine representation.
    pub open spec fn forward_fits(self, p: Position) -> bool {
        &&& q_fits(q_mul(p.x@, self.scale@))
        &&& q_fits(q_add(q_norm(q_mul(p.x@, self.scale@)), self.offset.x@))
        &&& q_fits(q_mul(p.y@, self.scale@))
        &&& q_fits(q_add(q_norm(q_mul(p.y@, self.scale@)), self.offset.y@))
    }

    /// Transform a content-space point to screen space:
    /// `p * scale + offset`, exactly.
    pub fn forward_transform(&self, p: &Position) -> (r: Result<Position, CameraError>)
        requires
            self.wf(),
            p.wf(),
        ensures
            r is Ok <==> self.forward_fits(*p),
            match r {
                Ok(out) => {
                    &&& out.wf()
                    &&& q_eq(out.x@, forward_q(p.x@, self.scale@, self.offset.x@))
                    &&& q_eq(out.y@, forward_q(p.y@, self.scale@, self.offset.y@))
                    &&& out.x@ == q_norm(
                        q_add(q_norm(q_mul(p.x@, self.scale@)), self.offset.x@),
                    )
                    &&& out.y@ == q_norm(
                        q_add(q_norm(q_mul(p.y@, self.scale@)), self.offset.y@),
                    )
                },
                Err(e) => e == CameraError::Overflow,
            },
    {
        let mx = match p.x.mul(&self.scale) {
            Some(v) => v,
            None => {
                return Err(CameraError::Overflow);
            },
        };
        let rx = match mx.add(&self.offset.x) {
            Some(v) => v,
            None => {
                return Err(CameraError::Overflow);
            },
        };
        let my = match p.y.mul(&self.scale) {
            Some(v) => v,
            None => {
                return Err(CameraError::Overflow);
            },
        };
        let ry = match my.add(&self.offset.y) {
            Some(v) => v,
            None => {
                return Err(CameraError::Overflow);
            },
        };
        proof {
            lemma_q_ops_wf(p.x@, self.scale@);
            lemma_q_ops_wf(p.y@, self.scale@);
            lemma_norm_then_add(q_mul(p.x@, self.scale@), self.offset.x@);
            lemma_norm_then_add(q_mul(p.y@, self.scale@), self.offset.y@);
        }
        Ok(Position::new(rx, ry))
    }

    /// Whether both exact intermediates of [`Camera::inverse_transform`]
    /// have a machine representation.
    pub open spec fn inverse_fits(self, p: Position) -> bool {
        &&& q_fits(q_sub(p.x@, self.offset.x@))
        &&& q_fits(q_div(q_norm(q_sub(p.x@, self.offset.x@)), self.scale@))
        &&& q_fits(q_sub(p.y@, self.offset.y@))
        &&& q_fits(q_div(q_norm(q_sub(p.y@, self.offset.y@)), self.scale@))
    }

    /// Transform a screen-space point to content space:
    /// `(p - offset) / scale`, exactly.  The result is characterised both
    /// as the exact quotient and multiplicatively:
    /// `out * scale == p - offset`.
    pub fn inverse_transform(&self, p: &Position) -> (r: Result<Position, CameraError>)
        requires
            self.wf(),
            p.wf(),
        ensures
            r is Ok <==> self.inverse_fits(*p),
            match r {
                Ok(out) => {
                    &&& out.wf()
                    &&& q_eq(out.x@, inverse_q(p.x@, self.scale@, self.offset.x@))
                    &&& q_eq(out.y@, inverse_q(p.y@, self.scale@, self.offset.y@))
                    &&& q_eq(q_mul(out.x@, self.scale@), q_sub(p.x@, self.offset.x@))
                    &&& q_eq(q_mul(out.y@, self.scale@), q_sub(p.y@, self.offset.y@))
                    &&& out.x@ == q_norm(
                        q_div(q_norm(q_sub(p.x@, self.offset.x@)), self.scale@),
                    )
                    &&& out.y@ == q_norm(
                        q_div(q_norm(q_sub(p.y@, self.offset.y@)), self.scale@),
                    )
                },
                Err(e) => e == CameraError::Overflow,
            },
    {
        let dx = match p.x.sub(&self.offset.x) {
            Some(v) => v,
            None => {
                return Err(CameraError::Overflow);
            },
        };
        let rx = match dx.div(&self.scale) {
            Some(v) => v,
            None => {
                return Err(CameraError::Overflow);
            },
        };
        let dy = match p.y.sub(&self.offset.y) {
            Some(v) => v,
            None => {
                return Err(CameraError::Overflow);
            },
        };
        let ry = match dy.div(&self.scale) {
            Some(v) => v,
            None => {
                return Err(CameraError::Overflow);
            },
        };
        proof {
            lemma_q_ops_wf(p.x@, self.offset.x@);
            lemma_q_ops_wf(p.y@, self.offset.y@);
            lemma_norm_then_div(q_sub(p.x@, self.offset.x@), self.scale@);
            lemma_norm_then_div(q_sub(p.y@, self.offset.y@), self.scale@);
        }
        Ok(Position::new(rx, ry))
    }

    /// The draw parameters for content positioned at `p` under this
    /// camera: destination `forward_transform(p)` and the camera's scale.
    pub fn draw_param(&self, p: &Position) -> (r: Result<DrawParam, CameraError>)
        requires
            self.wf(),
            p.wf(),
        ensures
            r is Ok <==> self.forward_fits(*p),
            match r {
                Ok(dp) => {
                    &&& dp.dest.wf()
                    &&& dp.scale == self.scale
                    &&& q_eq(dp.dest.x@, forward_q(p.x@, self.scale@, self.offset.x@))
                    &&& q_eq(dp.dest.y@, forward_q(p.y@, self.scale@, self.offset.y@))
                },
                Err(e) => e == CameraError::Overflow,
            },
    {
        let dest = self.forward_transform(p)?;
        Ok(DrawParam { dest, scale: self.scale })
    }

    /// Whether `p` lies strictly inside the camera's viewport rectangle
    /// (boundary points are outside by design).
    pub open spec fn contains_q(self, p: Position) -> bool {
        &&& q_lt(self.viewport_position.x@, p.x@)
        &&& q_lt(p.x@, q_add(self.viewport_position.x@, self.viewport_size.x@))
        &&& q_lt(self.viewport_position.y@, p.y@)
        &&& q_lt(p.y@, q_add(self.viewport_position.y@, self.viewport_size.y@))
    }

    /// Containment test against the viewport rectangle, with strict
    /// inequalities on all four edges.
    pub fn is_within(&self, p: &Position) -> (r: Result<bool, CameraError>)
        requires
            self.wf(),
            p.wf(),
        ensures
            r is Ok <==> q_fits(q_add(self.viewport_position.x@, self.viewport_size.x@))
                && q_fits(q_add(self.viewport_position.y@, self.viewport_size.y@)),
            match r {
                Ok(b) => b == self.contains_q(*p),
                Err(e) => e == CameraError::Overflow,
            },
    {
        let right = match self.viewport_position.x.add(&self.viewport_size.x) {
            Some(v) => v,
            None => {
                return Err(CameraError::Overflow);
            },
        };
        let bottom = match self.viewport_position.y.add(&self.viewport_size.y) {
            Some(v) => v,
            None => {
                return Err(CameraError::Overflow);
            },
        };
        proof {
            lemma_q_ops_wf(self.viewport_position.x@, self.viewport_size.x@);
            lemma_q_ops_wf(self.viewport_position.y@, self.viewport_size.y@);
            lemma_q_norm_eq(q_add(self.viewport_position.x@, self.viewport_size.x@));
            lemma_q_norm_eq(q_add(self.viewport_position.y@, self.viewport_size.y@));
            lemma_q_le_congr(
                p.x@,
                right@,
                p.x@,
                q_add(self.viewport_position.x@, self.viewport_size.x@),
            );
            lemma_q_le_congr(
                p.y@,
                bottom@,
                p.y@,
                q_add(self.viewport_position.y@, self.viewport_size.y@),
            );
        }
        Ok(
            self.viewport_position.x.lt(&p.x) && p.x.lt(&right) && self.viewport_position.y.lt(
                &p.y,
            ) && p.y.lt(&bottom),
        )
    }
}

/// The forward and inverse transforms are mutual inverses: for any
/// point `p` and any camera state with a nonzero scale,
/// `inverse(forward(p)) == p` and `forward(inverse(p)) == p`, exactly.
pub proof fn lemma_transform_round_trip(p: Q, s: Q, o: Q)
    requires
        q_wf(p),
        q_wf(s),
        q_wf(o),
        s.n != 0,
    ensures
        q_eq(inverse_q(forward_q(p, s, o), s, o), p),
        q_eq(forward_q(inverse_q(p, s, o), s, o), p),
{
    let ps = q_mul(p, s);
    lemma_q_ops_wf(p, s);
    lemma_q_ops_wf(ps, o);
    lemma_q_ops_wf(q_add(ps, o), o);
    crate::rational::lemma_q_add_sub_cancel(ps, o);
    crate::rational::lemma_q_div_congr(q_sub(q_add(ps, o), o), ps, s);
    crate::rational::lemma_q_div_mul_cancel(ps, s);
    crate::rational::lemma_q_div_mul_cancel(p, s);
    lemma_q_ops_wf(q_sub(q_add(ps, o), o), s);
    lemma_q_eq_trans(q_div(q_sub(q_add(ps, o), o), s), q_div(ps, s), p);
    // forward after inverse
    let d = q_sub(p, o);
    lemma_q_ops_wf(p, o);
    crate::rational::lemma_q_div_mul_cancel(d, s);
    lemma_q_ops_wf(q_div(d, s), s);
    lemma_q_ops_wf(q_mul(q_div(d, s), s), o);
    lemma_q_ops_wf(d, o);
    lemma_q_add_sub_congr(q_mul(q_div(d, s), s), o, d, o);
    crate::rational::lemma_q_add_sub_cancel(p, o);
    lemma_q_eq_trans(q_add(q_mul(q_div(d, s), s), o), q_add(d, o), p);
}

/// Zooming about a target leaves the content point under the target
/// unchanged, as long as no clamp interferes: if the new scale is
/// `s2 == r * s` and the new offset is `o2 == t - (t - o) * r`, then the
/// inverse transform of `t` is the same before and after.
pub proof fn lemma_zoom_fixes_target(t: Q, o: Q, s: Q, s2: Q, r: Q, o2: Q)
    requires
        q_wf(t),
        q_wf(o),
        q_wf(s),
        q_wf(s2),
        q_wf(r),
        q_wf(o2),
        q_lt(q_zero(), s),
        q_lt(q_zero(), s2),
        q_eq(q_mul(r, s), s2),
        q_eq(o2, q_sub(t, q_mul(q_sub(t, o), r))),
    ensures
        q_eq(inverse_q(t, s2, o2), inverse_q(t, s, o)),
{
    let u = q_sub(t, o);
    lemma_q_ops_wf(t, o);
    lemma_q_ops_wf(u, r);
    let ur = q_mul(u, r);
    lemma_q_ops_wf(t, ur);
    lemma_q_ops_wf(t, o2);
    // t - o2 == u * r
    lemma_q_add_sub_congr(t, o2, t, q_sub(t, ur));
    lemma_q_ops_wf(t, q_sub(t, ur));
    crate::rational::lemma_q_sub_sub_cancel(t, ur);
    lemma_q_eq_trans(q_sub(t, o2), q_sub(t, q_sub(t, ur)), ur);
    // inverse after: (t - o2) / s2 == (u * r) / s2
    crate::rational::lemma_q_div_congr(q_sub(t, o2), ur, s2);
    lemma_q_ops_wf(q_sub(t, o2), s2);
    lemma_q_ops_wf(ur, s2);
    // (u / s) * s2 == u * r, hence (u * r) / s2 == u / s
    let us = q_div(u, s);
    crate::rational::lemma_q_div_mul_cancel(u, s);
    lemma_q_ops_wf(us, s);
    lemma_q_ops_wf(us, s2);
    lemma_q_ops_wf(r, s);
    lemma_q_ops_wf(us, q_mul(r, s));
    // us * s2 == us * (r * s)
    crate::rational::lemma_q_mul_congr(us, s2, us, q_mul(r, s));
    // us * (r * s) == (us * s) * r == u * r
    assert(q_eq(q_mul(us, q_mul(r, s)), q_mul(q_mul(us, s), r))) by (nonlinear_arith)
        requires
            q_wf(us),
            q_wf(r),
            q_wf(s),
    ;
    lemma_q_ops_wf(q_mul(us, s), r);
    crate::rational::lemma_q_mul_congr(q_mul(us, s), r, u, r);
    lemma_q_eq_trans(q_mul(us, q_mul(r, s)), q_mul(q_mul(us, s), r), ur);
    lemma_q_eq_trans(q_mul(us, s2), q_mul(us, q_mul(r, s)), ur);
    // cancel s2 on the right
    crate::rational::lemma_q_div_mul_cancel(ur, s2);
    lemma_q_ops_wf(q_div(ur, s2), s2);
    lemma_q_eq_trans(q_mul(q_div(ur, s2), s2), ur, q_mul(us, s2));
    crate::rational::lemma_q_mul_cancel_right(q_div(ur, s2), us, s2);
    lemma_q_eq_trans(q_div(q_sub(t, o2), s2), q_div(ur, s2), us);
}

/// End-to-end form of the zoom law, on one axis: a camera that
/// [`Camera::zoom`] produced keeps the world point under the zoom
/// target fixed, as long as neither the scale clamp nor the offset
/// clamp engaged on that axis.
pub proof fn lemma_zoom_unclamped_keeps_target(c: Camera, nc: Camera, f: Q, t: Q, o: Q, no: Q)
    requires
        c.wf(),
        q_wf(f),
        q_wf(t),
        q_wf(o),
        q_wf(no),
        // what Camera::zoom ensures on this axis
        nc.scale@ == zoom_scale(c, f),
        q_wf(nc.scale@),
        // the scale clamp did not engage ...
        q_le(c.scale_min@, q_norm(q_mul(c.scale@, f))),
        q_le(q_norm(q_mul(c.scale@, f)), c.scale_max@),
        // ... and the offset clamp did not either: the new offset is
        // the plain recentring of the old one
        q_eq(no, q_sub(t, q_mul(q_sub(t, o), zoom_ratio(c, f)))),
    ensures
        q_eq(inverse_q(t, nc.scale@, no), inverse_q(t, c.scale@, o)),
{
    let s = c.scale@;
    let raw = q_norm(q_mul(s, f));
    // with the clamp disengaged the new scale is exactly the product
    assert(nc.scale@ == raw);
    let ns = nc.scale@;
    lemma_q_ops_wf(s, f);
    lemma_q_norm_eq(q_mul(s, f));
    // the new scale is positive: it is at least scale_min
    crate::rational::lemma_q_le_lt_trans(q_zero(), c.scale_min@, ns);
    // the ratio times the old scale is the new scale
    let r0 = zoom_ratio(c, f);
    crate::rational::lemma_q_div_mul_cancel(ns, s);
    lemma_q_norm_eq(q_div(ns, s));
    lemma_q_ops_wf(q_div(ns, s), s);
    lemma_q_ops_wf(r0, s);
    crate::rational::lemma_q_mul_congr(r0, s, q_div(ns, s), s);
    lemma_q_eq_trans(q_mul(r0, s), q_mul(q_div(ns, s), s), ns);
    lemma_zoom_fixes_target(t, o, s, ns, r0, no);
}

/// After `set_limits` and `zoom_out`, the content projected at the new
/// scale exactly fills the tighter viewport axis and covers the
/// viewport on both axes.
pub proof fn lemma_zoom_out_fills_viewport(vw: Q, vh: Q, cw: Q, ch: Q)
    requires
        q_wf(vw),
        q_wf(vh),
        q_wf(cw),
        q_wf(ch),
        q_lt(q_zero(), vw),
        q_lt(q_zero(), vh),
        q_lt(q_zero(), cw),
        q_lt(q_zero(), ch),
    ensures
        q_eq(q_mul(limits_scale_min(vw, vh, cw, ch), cw), vw) || q_eq(
            q_mul(limits_scale_min(vw, vh, cw, ch), ch),
            vh,
        ),
        q_le(vw, q_mul(limits_scale_min(vw, vh, cw, ch), cw)),
        q_le(vh, q_mul(limits_scale_min(vw, vh, cw, ch), ch)),
        q_lt(q_zero(), limits_scale_min(vw, vh, cw, ch)),
{
    lemma_scale_min_facts(vw, vh, cw, ch);
}

/// After `scale_to_fit_horizontal`, the forward and inverse transforms
/// are mutual inverses for every point: the locked horizontal-fit scale
/// is positive, so the round trip is exact.
pub proof fn lemma_fit_horizontal_round_trip(vw: Q, cw: Q, p: Q, o: Q)
    requires
        q_wf(vw),
        q_wf(cw),
        q_wf(p),
        q_wf(o),
        q_lt(q_zero(), vw),
        q_lt(q_zero(), cw),
    ensures
        q_eq(
            inverse_q(
                forward_q(p, q_norm(q_div(vw, cw)), o),
                q_norm(q_div(vw, cw)),
                o,
            ),
            p,
        ),
{
    lemma_q_pos_mul_div(vw, cw);
    lemma_q_norm_eq(q_div(vw, cw));
    lemma_q_le_congr(q_zero(), q_norm(q_div(vw, cw)), q_zero(), q_div(vw, cw));
    lemma_transform_round_trip(p, q_norm(q_div(vw, cw)), o);
}

/// The facts `set_limits` needs about the derived scale range: it is
/// positive, ordered, the content projected at `scale_min` exactly fills
/// the tighter viewport axis and covers both axes.
proof fn lemma_scale_min_facts(vw: Q, vh: Q, cw: Q, ch: Q)
    requires
        q_wf(vw),
        q_wf(vh),
        q_wf(cw),
        q_wf(ch),
        q_lt(q_zero(), vw),
        q_lt(q_zero(), vh),
        q_lt(q_zero(), cw),
        q_lt(q_zero(), ch),
    ensures
        q_wf(limits_scale_min(vw, vh, cw, ch)),
        q_lt(q_zero(), limits_scale_min(vw, vh, cw, ch)),
        q_wf(limits_scale_max(vw, vh, cw, ch)),
        q_le(limits_scale_min(vw, vh, cw, ch), limits_scale_max(vw, vh, cw, ch)),
        q_eq(q_mul(limits_scale_min(vw, vh, cw, ch), cw), vw) || q_eq(
            q_mul(limits_scale_min(vw, vh, cw, ch), ch),
            vh,
        ),
        q_le(vw, q_mul(limits_scale_min(vw, vh, cw, ch), cw)),
        q_le(vh, q_mul(limits_scale_min(vw, vh, cw, ch), ch)),
{
    let sx = q_div(vw, cw);
    let sy = q_div(vh, ch);
    lemma_q_pos_mul_div(vw, cw);
    lemma_q_pos_mul_div(vh, ch);
    lemma_q_norm_eq(sx);
    lemma_q_norm_eq(sy);
    let nx = q_norm(sx);
    let ny = q_norm(sy);
    lemma_q_le_congr(q_zero(), nx, q_zero(), sx);
    lemma_q_le_congr(q_zero(), ny, q_zero(), sy);
    let smin = limits_scale_min(vw, vh, cw, ch);
    // the exact fill on the tighter axis, and covering on the other
    lemma_q_ops_wf(nx, cw);
    lemma_q_ops_wf(sx, cw);
    lemma_q_ops_wf(ny, ch);
    lemma_q_ops_wf(sy, ch);
    lemma_q_ops_wf(smin, cw);
    lemma_q_ops_wf(smin, ch);
    crate::rational::lemma_q_mul_congr(nx, cw, sx, cw);
    crate::rational::lemma_q_div_mul_cancel(vw, cw);
    lemma_q_eq_trans(q_mul(nx, cw), q_mul(sx, cw), vw);
    crate::rational::lemma_q_mul_congr(ny, ch, sy, ch);
    crate::rational::lemma_q_div_mul_cancel(vh, ch);
    lemma_q_eq_trans(q_mul(ny, ch), q_mul(sy, ch), vh);
    if q_le(nx, ny) {
        // smin == ny: the vertical axis is filled exactly
        crate::rational::lemma_q_mul_le_mono(nx, smin, cw);
        lemma_q_le_congr(q_mul(nx, cw), q_mul(smin, cw), vw, q_mul(smin, cw));
    } else {
        // smin == nx: the horizontal axis is filled exactly
        crate::rational::lemma_q_mul_le_mono(ny, smin, ch);
        lemma_q_le_congr(q_mul(ny, ch), q_mul(smin, ch), vh, q_mul(smin, ch));
    }
    // positivity of the maximum
    crate::rational::lemma_q_le_lt_trans(q_zero(), nx, smin);
    crate::rational::lemma_q_le_lt_trans(q_zero(), ny, smin);
    // scale_min <= scale_max == norm(scale_min * 5)
    assert(q_le(smin, q_mul(smin, q_int(5)))) by (nonlinear_arith)
        requires
            q_wf(smin),
            q_lt(q_zero(), smin),
    ;
    lemma_q_ops_wf(smin, q_int(5));
    lemma_q_norm_eq(q_mul(smin, q_int(5)));
    lemma_q_le_congr(smin, q_mul(smin, q_int(5)), smin, q_norm(q_mul(smin, q_int(5))));
}

/// The names of the independent logical viewports.
#[derive(Clone, Copy, Debug, PartialEq, Eq, Structural)]
pub enum CameraId {
    MainMap,
    ParentMap,
    TextWindow,
}

/// Owns one camera per named viewport, created lazily on first mutable
/// access.  Read-only queries on a camera that was never created fall
/// back to the identity transform (scale one, no offset) or to `false`
/// containment, so drawing never fails during startup frames.
pub struct CameraManager {
    main_map: Camera,
    main_map_present: bool,
    parent_map: Camera,
    parent_map_present: bool,
    text_window: Camera,
    text_window_present: bool,
}

impl CameraManager {
    /// The camera stored under `key`, if one was created.
    pub closed spec fn slot(self, key: CameraId) -> Option<Camera> {
        match key {
            CameraId::MainMap => if self.main_map_present {
                Some(self.main_map)
            } else {
                None
            },
            CameraId::ParentMap => if self.parent_map_present {
                Some(self.parent_map)
            } else {
                None
            },
            CameraId::TextWindow => if self.text_window_present {
                Some(self.text_window)
            } else {
                None
            },
        }
    }

    /// Every camera that exists is well-formed.
    pub closed spec fn wf(self) -> bool {
        &&& (self.main_map_present ==> self.main_map.wf())
        &&& (self.parent_map_present ==> self.parent_map.wf())
        &&& (self.text_window_present ==> self.text_window.wf())
    }

    /// In a well-formed manager, every stored camera is well-formed.
    pub proof fn lemma_wf_slot(self, k: CameraId)
        requires
            self.wf(),
        ensures
            self.slot(k) is Some ==> self.slot(k).unwrap().wf(),
    {
    }

    pub fn new() -> (r: CameraManager)
        ensures
            r.wf(),
            forall|k: CameraId| (#[trigger] r.slot(k)) is None,
    {
        CameraManager {
            main_map: Camera::new(),
            main_map_present: false,
            parent_map: Camera::new(),
            parent_map_present: false,
            text_window: Camera::new(),
            text_window_present: false,
        }
    }

    /// Borrow the camera stored under `key`, if one was created.
    fn camera_ref(&self, key: &CameraId) -> (r: Option<&Camera>)
        ensures
            match r {
                Some(c) => self.slot(*key) == Some(*c),
                None => self.slot(*key) is None,
            },
    {
        match key {
            CameraId::MainMap => if self.main_map_present {
                Some(&self.main_map)
            } else {
                None
            },
            CameraId::ParentMap => if self.parent_map_present {
                Some(&self.parent_map)
            } else {
                None
            },
            CameraId::TextWindow => if self.text_window_present {
                Some(&self.text_window)
            } else {
                None
            },
        }
    }

    /// The camera named `key`, created with unit defaults on first
    /// access.  Other cameras are untouched, and the manager stays
    /// well-formed as long as the borrow leaves a well-formed camera
    /// behind.
    pub fn get_camera(&mut self, key: CameraId) -> (c: &mut Camera)
        requires
            old(self).wf(),
        ensures
            match old(self).slot(key) {
                Some(cam) => *c == cam,
                None => c.wf() && c.in_limits() && c.is_default(),
            },
            c.wf(),
            final(self).slot(key) == Some(*final(c)),
            forall|k: CameraId| k != key ==> #[trigger] final(self).slot(k) == old(self).slot(k),
            final(c).wf() ==> final(self).wf(),
    {
        match key {
            CameraId::MainMap => {
                if !self.main_map_present {
                    self.main_map = Camera::new();
                    self.main_map_present = true;
                }
                &mut self.main_map
            },
            CameraId::ParentMap => {
                if !self.parent_map_present {
                    self.parent_map = Camera::new();
                    self.parent_map_present = true;
                }
                &mut self.parent_map
            },
            CameraId::TextWindow => {
                if !self.text_window_present {
                    self.text_window = Camera::new();
                    self.text_window_present = true;
                }
                &mut self.text_window
            },
        }
    }

    /// Draw parameters for content at `position` under the camera named
    /// `key`; the identity transform if that camera was never created.
    pub fn get_draw_param(&self, key: &CameraId, position: &Position) -> (r: Result<
        DrawParam,
        CameraError,
    >)
        requires
            self.wf(),
            position.wf(),
        ensures
            match self.slot(*key) {
                Some(cam) => {
                    &&& (r is Ok <==> cam.forward_fits(*position))
                    &&& match r {
                        Ok(dp) => {
                            &&& dp.dest.wf()
                            &&& dp.scale == cam.scale
                            &&& q_eq(dp.dest.x@, forward_q(position.x@, cam.scale@, cam.offset.x@))
                            &&& q_eq(dp.dest.y@, forward_q(position.y@, cam.scale@, cam.offset.y@))
                        },
                        Err(e) => e == CameraError::Overflow,
                    }
                },
                None => match r {
                    Ok(dp) => dp.dest == *position && dp.scale.wf() && dp.scale@ == q_int(1),
                    Err(_) => false,
                },
            },
    {
        match self.camera_ref(key) {
            Some(cam) => cam.draw_param(position),
            None => Ok(DrawParam { dest: *position, scale: Rational::one() }),
        }
    }

    /// Forward-transform `position` under the camera named `key`
    /// (content to screen space); the identity if that camera was never
    /// created.
    pub fn transform_position(&self, key: &CameraId, position: &Position) -> (r: Result<
        Position,
        CameraError,
    >)
        requires
            self.wf(),
            position.wf(),
        ensures
            match self.slot(*key) {
                Some(cam) => {
                    &&& (r is Ok <==> cam.forward_fits(*position))
                    &&& match r {
                        Ok(out) => {
                            &&& out.wf()
                            &&& q_eq(out.x@, forward_q(position.x@, cam.scale@, cam.offset.x@))
                            &&& q_eq(out.y@, forward_q(position.y@, cam.scale@, cam.offset.y@))
                        },
                        Err(e) => e == CameraError::Overflow,
                    }
                },
                None => r == Ok::<Position, CameraError>(*position),
            },
    {
        match self.camera_ref(key) {
            Some(cam) => cam.forward_transform(position),
            None => Ok(*position),
        }
    }

    /// Inverse-transform `position` under the camera named `key`
    /// (screen to content space); the identity if that camera was never
    /// created.
    pub fn inv_transform_position(&self, key: &CameraId, position: &Position) -> (r: Result<
        Position,
        CameraError,
    >)
        requires
            self.wf(),
            position.wf(),
        ensures
            match self.slot(*key) {
                Some(cam) => {
                    &&& (r is Ok <==> cam.inverse_fits(*position))
                    &&& match r {
                        Ok(out) => {
                            &&& out.wf()
                            &&& q_eq(out.x@, inverse_q(position.x@, cam.scale@, cam.offset.x@))
                            &&& q_eq(out.y@, inverse_q(position.y@, cam.scale@, cam.offset.y@))
                            &&& q_eq(q_mul(out.x@, cam.scale@), q_sub(position.x@, cam.offset.x@))
                            &&& q_eq(q_mul(out.y@, cam.scale@), q_sub(position.y@, cam.offset.y@))
                            &&& out.x@ == q_norm(
                                q_div(q_norm(q_sub(position.x@, cam.offset.x@)), cam.scale@),
                            )
                            &&& out.y@ == q_norm(
                                q_div(q_norm(q_sub(position.y@, cam.offset.y@)), cam.scale@),
                            )
                        },
                        Err(e) => e == CameraError::Overflow,
                    }
                },
                None => r == Ok::<Position, CameraError>(*position),
            },
    {
        match self.camera_ref(key) {
            Some(cam) => cam.inverse_transform(position),
            None => Ok(*position),
        }
    }

    /// Whether `position` lies strictly inside the viewport of the
    /// camera named `key`; `false` if that camera was never created.
    pub fn is_within(&self, key: &CameraId, position: &Position) -> (r: Result<bool, CameraError>)
        requires
            self.wf(),
            position.wf(),
        ensures
            match self.slot(*key) {
                Some(cam) => {
                    &&& (r is Ok <==> q_fits(
                        q_add(cam.viewport_position.x@, cam.viewport_size.x@),
                    ) && q_fits(q_add(cam.viewport_position.y@, cam.viewport_size.y@)))
                    &&& match r {
                        Ok(b) => b == cam.contains_q(*position),
                        Err(e) => e == CameraError::Overflow,
                    }
                },
                None => r == Ok::<bool, CameraError>(false),
            },
    {
        match self.camera_ref(key) {
            Some(cam) => cam.is_within(position),
            None => Ok(false),
        }
    }
}

/// Normalising the inner operand does not change the exact sum.
proof fn lemma_norm_then_add(m: Q, o: Q)
    requires
        q_wf(m),
        q_wf(o),
    ensures
        q_wf(q_add(q_norm(m), o)),
        q_wf(q_norm(q_add(q_norm(m), o))),
        q_eq(q_norm(q_add(q_norm(m), o)), q_add(m, o)),
{
    lemma_q_norm_eq(m);
    lemma_q_ops_wf(q_norm(m), o);
    lemma_q_ops_wf(m, o);
    lemma_q_add_sub_congr(q_norm(m), o, m, o);
    lemma_q_norm_eq(q_add(q_norm(m), o));
    lemma_q_eq_trans(q_norm(q_add(q_norm(m), o)), q_add(q_norm(m), o), q_add(m, o));
}

/// Normalising the dividend does not change the exact quotient, and the
/// quotient is characterised multiplicatively.
proof fn lemma_norm_then_div(d: Q, s: Q)
    requires
        q_wf(d),
        q_wf(s),
        s.n != 0,
    ensures
        q_wf(q_norm(d)),
        q_wf(q_div(q_norm(d), s)),
        q_wf(q_norm(q_div(q_norm(d), s))),
        q_eq(q_norm(q_div(q_norm(d), s)), q_div(d, s)),
        q_eq(q_mul(q_norm(q_div(q_norm(d), s)), s), d),
{
    lemma_q_norm_eq(d);
    crate::rational::lemma_q_div_mul_cancel(q_norm(d), s);
    crate::rational::lemma_q_div_mul_cancel(d, s);
    crate::rational::lemma_q_div_congr(q_norm(d), d, s);
    lemma_q_norm_eq(q_div(q_norm(d), s));
    lemma_q_eq_trans(q_norm(q_div(q_norm(d), s)), q_div(q_norm(d), s), q_div(d, s));
    // multiplicative characterisation
    let out = q_norm(q_div(q_norm(d), s));
    lemma_q_ops_wf(out, s);
    lemma_q_ops_wf(q_div(d, s), s);
    crate::rational::lemma_q_mul_congr(out, s, q_div(d, s), s);
    lemma_q_eq_trans(q_mul(out, s), q_mul(q_div(d, s), s), d);
}

} // verus!
