//! Text-panel layout: keeping the text window's content size in sync
//! with rendered glyph metrics, and keeping the edit cursor visible.
//!
//! Measuring text is the one operation only the rendering backend can do;
//! the backend hands measured sizes and glyph positions in as plain
//! values, and everything computed from them is verified here.  When the
//! backend cannot measure (empty text), the arranger falls back to the
//! minimum panel box instead of failing.

use vstd::prelude::*;

use crate::camera::{Camera, CameraError};
use crate::position::Position;
use crate::rational::{q_add, q_clamp, q_div, q_eq, q_fits, q_int, q_lt, q_max, q_min, q_mul,
    q_norm, q_sub, q_zero, Rational, Q};

verus! {

/// The text buffer under edit and the cursor index into it,
/// `indicator` in `[0, text.len()]`.
pub struct TextEditor {
    pub text: Vec<char>,
    pub indicator: usize,
}

impl TextEditor {
    /// The cursor never leaves the buffer.
    pub open spec fn wf(self) -> bool {
        self.indicator <= self.text.len()
    }

    pub fn new() -> (r: TextEditor)
        ensures
            r.wf(),
            r.text@ == Seq::<char>::empty(),
            r.indicator == 0,
    {
        TextEditor { text: Vec::new(), indicator: 0 }
    }

    /// Insert `c` at the cursor and move the cursor past it.
    pub fn insert_char(&mut self, c: char)
        requires
            old(self).wf(),
            old(self).text.len() < usize::MAX,
        ensures
            final(self).wf(),
            final(self).text@ == old(self).text@.insert(old(self).indicator as int, c),
            final(self).indicator == old(self).indicator + 1,
    {
        self.text.insert(self.indicator, c);
        self.indicator = self.indicator + 1;
    }

    /// Remove the character before the cursor, if any, and move the
    /// cursor back; at the start of the buffer nothing changes.
    pub fn backspace(&mut self)
        requires
            old(self).wf(),
        ensures
            final(self).wf(),
            old(self).indicator > 0 ==> final(self).text@ == old(self).text@.remove(
                old(self).indicator - 1,
            ) && final(self).indicator == old(self).indicator - 1,
            old(self).indicator == 0 ==> final(self).text@ == old(self).text@ && final(self).indicator == 0,
    {
        if self.indicator > 0 {
            self.text.remove(self.indicator - 1);
            self.indicator = self.indicator - 1;
        }
    }

    /// Move the cursor one character left, stopping at the start.
    pub fn move_left(&mut self)
        requires
            old(self).wf(),
        ensures
            final(self).wf(),
            final(self).text@ == old(self).text@,
            final(self).indicator == (if old(self).indicator > 0 {
                old(self).indicator - 1
            } else {
                0int
            }),
    {
        if self.indicator > 0 {
            self.indicator = self.indicator - 1;
        }
    }

    /// Move the cursor one character right, stopping at the end.
    pub fn move_right(&mut self)
        requires
            old(self).wf(),
        ensures
            final(self).wf(),
            final(self).text@ == old(self).text@,
            final(self).indicator == (if old(self).indicator < old(self).text.len() {
                old(self).indicator + 1
            } else {
                old(self).text.len() as int
            }),
    {
        if self.indicator < self.text.len() {
            self.indicator = self.indicator + 1;
        }
    }

    /// Move the cursor to the start of the buffer.
    pub fn move_home(&mut self)
        requires
            old(self).wf(),
        ensures
            final(self).wf(),
            final(self).text@ == old(self).text@,
            final(self).indicator == 0,
    {
        self.indicator = 0;
    }

    /// Move the cursor to the end of the buffer.
    pub fn move_end(&mut self)
        requires
            old(self).wf(),
        ensures
            final(self).wf(),
            final(self).text@ == old(self).text@,
            final(self).indicator == old(self).text.len(),
    {
        self.indicator = self.text.len();
    }
}

/// An editing key the text panel reacts to.
#[derive(Clone, Copy, Debug, PartialEq, Eq, Structural)]
pub enum EditKey {
    Backspace,
    Left,
    Right,
    Home,
    End,
}

/// The content size on one axis that the text panel scrolls over:
/// the measured size, but never below the minimum box.
pub open spec fn panel_content_axis(measured: Q, minimum: Q) -> Q {
    q_max(measured, minimum)
}

/// Keeps the text panel's effective content size in sync with rendered
/// glyph metrics and drives the text-window camera so that the edit
/// cursor stays visible.
pub struct TextManager {
    /// What the rendering backend currently shows; kept in sync with
    /// the edit buffer by [`TextManager::set_text`] and
    /// [`TextManager::set_text_from_editor`].
    pub display_text: Vec<char>,
    /// Measured text size, plus the vertical fill below it.
    pub text_size: Position,
    /// The panel's share of the window, `(width ratio, height ratio)`.
    pub textbox_dims: Position,
    /// The font scale handed to the rendering backend.
    pub textscale: Position,
    /// The wrapping bounds handed to the rendering backend.
    pub bounds: Position,
    pub text_editor: TextEditor,
}

impl TextManager {
    pub open spec fn wf(self) -> bool {
        &&& self.text_size.wf()
        &&& self.textbox_dims.wf()
        &&& self.textscale.wf()
        &&& self.bounds.wf()
        &&& self.text_editor.wf()
    }

    /// A fresh manager: unit text size, the panel at 30% of the window
    /// width and 70% of its height, unit font scale, an empty buffer.
    pub fn new() -> (r: TextManager)
        ensures
            r.wf(),
            r.text_size.x@ == q_int(1),
            r.text_size.y@ == q_int(1),
            r.textbox_dims.x@ == (Q { n: 3, d: 10 }),
            r.textbox_dims.y@ == (Q { n: 7, d: 10 }),
            r.textscale.x@ == q_int(1),
            r.textscale.y@ == q_int(1),
            r.text_editor.text@ == Seq::<char>::empty(),
            r.text_editor.indicator == 0,
            r.display_text@ == Seq::<char>::empty(),
    {
        TextManager {
            display_text: Vec::new(),
            text_size: Position::from_ints(1, 1),
            textbox_dims: Position::new(
                Rational::from_ratio(3, 10),
                Rational::from_ratio(7, 10),
            ),
            textscale: Position::from_ints(1, 1),
            bounds: Position::origin(),
            text_editor: TextEditor::new(),
        }
    }

    /// Replace the buffer and what is shown; the cursor is kept,
    /// clamped to the new end.
    pub fn set_text(&mut self, text: &Vec<char>)
        requires
            old(self).wf(),
        ensures
            final(self).wf(),
            final(self).display_text@ == text@,
            final(self).text_editor.text@ == text@,
            final(self).text_editor.indicator == (if old(self).text_editor.indicator
                <= text.len() {
                old(self).text_editor.indicator as int
            } else {
                text.len() as int
            }),
            final(self).text_size == old(self).text_size,
            final(self).textbox_dims == old(self).textbox_dims,
            final(self).textscale == old(self).textscale,
            final(self).bounds == old(self).bounds,
    {
        self.text_editor.text = text.clone();
        self.display_text = text.clone();
        if self.text_editor.indicator > self.text_editor.text.len() {
            self.text_editor.indicator = self.text_editor.text.len();
        }
    }

    /// The sizes of the text panel's two backdrop rectangles: the outer
    /// frame pads the text size by `(20, 10)`, the inner sheet trims it
    /// by `(5, 30)`.
    pub fn background_sizes(&self) -> (r: Result<(Position, Position), CameraError>)
        requires
            self.wf(),
        ensures
            match r {
                Ok((outer, inner)) => {
                    &&& outer.wf()
                    &&& inner.wf()
                    &&& q_eq(outer.x@, q_add(self.text_size.x@, q_int(20)))
                    &&& q_eq(outer.y@, q_add(self.text_size.y@, q_int(10)))
                    &&& q_eq(inner.x@, q_sub(self.text_size.x@, q_int(5)))
                    &&& q_eq(inner.y@, q_sub(self.text_size.y@, q_int(30)))
                },
                Err(e) => e == CameraError::Overflow,
            },
            r is Ok <==> q_fits(q_add(self.text_size.x@, q_int(20))) && q_fits(
                q_add(self.text_size.y@, q_int(10)),
            ) && q_fits(q_sub(self.text_size.x@, q_int(5))) && q_fits(
                q_sub(self.text_size.y@, q_int(30)),
            ),
    {
        let ox = match self.text_size.x.add(&Rational::from_int(20)) {
            Some(v) => v,
            None => {
                return Err(CameraError::Overflow);
            },
        };
        let oy = match self.text_size.y.add(&Rational::from_int(10)) {
            Some(v) => v,
            None => {
                return Err(CameraError::Overflow);
            },
        };
        let ix = match self.text_size.x.sub(&Rational::from_int(5)) {
            Some(v) => v,
            None => {
                return Err(CameraError::Overflow);
            },
        };
        let iy = match self.text_size.y.sub(&Rational::from_int(30)) {
            Some(v) => v,
            None => {
                return Err(CameraError::Overflow);
            },
        };
        proof {
            crate::rational::lemma_q_ops_wf(self.text_size.x@, q_int(20));
            crate::rational::lemma_q_ops_wf(self.text_size.y@, q_int(10));
            crate::rational::lemma_q_norm_eq(q_add(self.text_size.x@, q_int(20)));
            crate::rational::lemma_q_norm_eq(q_add(self.text_size.y@, q_int(10)));
            crate::rational::lemma_q_norm_eq(q_sub(self.text_size.x@, q_int(5)));
            crate::rational::lemma_q_norm_eq(q_sub(self.text_size.y@, q_int(30)));
        }
        Ok((Position::new(ox, oy), Position::new(ix, iy)))
    }

    /// Refresh what is shown from the edit buffer, after an edit
    /// changed the buffer.
    pub fn set_text_from_editor(&mut self)
        requires
            old(self).wf(),
        ensures
            final(self).wf(),
            final(self).display_text@ == old(self).text_editor.text@,
            final(self).text_editor == old(self).text_editor,
            final(self).text_size == old(self).text_size,
            final(self).textbox_dims == old(self).textbox_dims,
            final(self).textscale == old(self).textscale,
            final(self).bounds == old(self).bounds,
    {
        self.display_text = self.text_editor.text.clone();
    }

    /// The wrapping bounds for the rendering backend: 90% of the
    /// panel's width, and practically unbounded height
    /// (`panel width ratio * 10^7 *` window height).
    pub fn set_bounds(&mut self, drawable: &Position) -> (r: Result<(), CameraError>)
        requires
            old(self).wf(),
            drawable.wf(),
        ensures
            final(self).wf(),
            r is Ok <==> q_fits(q_mul(old(self).textbox_dims.x@, drawable.x@)) && q_fits(
                q_mul(q_norm(q_mul(old(self).textbox_dims.x@, drawable.x@)), Q { n: 9, d: 10 }),
            ) && q_fits(q_mul(old(self).textbox_dims.x@, q_int(10000000))) && q_fits(
                q_mul(q_norm(q_mul(old(self).textbox_dims.x@, q_int(10000000))), drawable.y@),
            ),
            match r {
                Ok(()) => {
                    &&& q_eq(
                        final(self).bounds.x@,
                        q_mul(q_mul(old(self).textbox_dims.x@, drawable.x@), Q { n: 9, d: 10 }),
                    )
                    &&& q_eq(
                        final(self).bounds.y@,
                        q_mul(q_mul(old(self).textbox_dims.x@, q_int(10000000)), drawable.y@),
                    )
                    &&& final(self).text_size == old(self).text_size
                    &&& final(self).textbox_dims == old(self).textbox_dims
                    &&& final(self).textscale == old(self).textscale
                    &&& final(self).text_editor == old(self).text_editor
                    &&& final(self).display_text == old(self).display_text
                },
                Err(e) => e == CameraError::Overflow && *final(self) == *old(self),
            },
    {
        let a = match self.textbox_dims.x.mul(&drawable.x) {
            Some(v) => v,
            None => {
                return Err(CameraError::Overflow);
            },
        };
        let bx = match a.mul(&Rational::from_ratio(9, 10)) {
            Some(v) => v,
            None => {
                return Err(CameraError::Overflow);
            },
        };
        let b = match self.textbox_dims.x.mul(&Rational::from_int(10000000)) {
            Some(v) => v,
            None => {
                return Err(CameraError::Overflow);
            },
        };
        let by = match b.mul(&drawable.y) {
            Some(v) => v,
            None => {
                return Err(CameraError::Overflow);
            },
        };
        proof {
            lemma_mul_norm_left(self.textbox_dims.x@, drawable.x@, Q { n: 9, d: 10 });
            lemma_mul_norm_left(self.textbox_dims.x@, q_int(10000000), drawable.y@);
        }
        self.bounds = Position::new(bx, by);
        Ok(())
    }

    /// The font scale for the rendering backend.
    pub fn set_scale(&mut self, scale: &Position)
        requires
            old(self).wf(),
            scale.wf(),
        ensures
            final(self).wf(),
            final(self).textscale == *scale,
            final(self).text_size == old(self).text_size,
            final(self).textbox_dims == old(self).textbox_dims,
            final(self).bounds == old(self).bounds,
            final(self).text_editor == old(self).text_editor,
            final(self).display_text == old(self).display_text,
    {
        self.textscale = *scale;
    }

    /// Take a measured text rectangle from the rendering backend and
    /// reserve `y_fill` of vertical room below it.  When the backend
    /// could not measure, nothing changes; the arranger's minimum box
    /// takes over instead.
    pub fn compute_text_size(&mut self, measured: Option<&Position>, y_fill: &Rational) -> (r:
        Result<(), CameraError>)
        requires
            old(self).wf(),
            match measured {
                Some(m) => m.wf(),
                None => true,
            },
            y_fill.wf(),
        ensures
            final(self).wf(),
            r is Ok <==> match measured {
                Some(m) => q_fits(q_add(m.y@, y_fill@)),
                None => true,
            },
            measured is None ==> r == Ok::<(), CameraError>(()) && *final(self) == *old(self),
            match r {
                Ok(()) => match measured {
                    Some(m) => {
                        &&& final(self).text_size.x == m.x
                        &&& q_eq(final(self).text_size.y@, q_add(m.y@, y_fill@))
                        &&& final(self).textbox_dims == old(self).textbox_dims
                        &&& final(self).textscale == old(self).textscale
                        &&& final(self).bounds == old(self).bounds
                        &&& final(self).text_editor == old(self).text_editor
                        &&& final(self).display_text == old(self).display_text
                    },
                    None => *final(self) == *old(self),
                },
                Err(e) => e == CameraError::Overflow && *final(self) == *old(self),
            },
    {
        match measured {
            Some(m) => {
                let h = match m.y.add(y_fill) {
                    Some(v) => v,
                    None => {
                        return Err(CameraError::Overflow);
                    },
                };
                proof {
                    crate::rational::lemma_q_ops_wf(m.y@, y_fill@);
                    crate::rational::lemma_q_norm_eq(q_add(m.y@, y_fill@));
                }
                self.text_size = Position::new(m.x, h);
                Ok(())
            },
            None => Ok(()),
        }
    }

    /// Apply one editing key to the buffer.  Returns whether the text
    /// itself changed (so the caller knows to re-measure before
    /// re-arranging).
    pub fn handle_key(&mut self, key: EditKey) -> (changed: bool)
        requires
            old(self).wf(),
        ensures
            final(self).wf(),
            final(self).text_size == old(self).text_size,
            final(self).textbox_dims == old(self).textbox_dims,
            final(self).textscale == old(self).textscale,
            final(self).bounds == old(self).bounds,
            final(self).display_text == old(self).display_text,
            changed == (key == EditKey::Backspace && old(self).text_editor.indicator > 0),
            match key {
                EditKey::Backspace => (old(self).text_editor.indicator > 0 ==> final(self).text_editor.text@ == old(self).text_editor.text@.remove(
                    old(self).text_editor.indicator - 1,
                ) && final(self).text_editor.indicator == old(self).text_editor.indicator - 1) && (
                old(self).text_editor.indicator == 0 ==> final(self).text_editor.text@
                    == old(self).text_editor.text@ && final(self).text_editor.indicator == 0),
                EditKey::Left => final(self).text_editor.text@ == old(self).text_editor.text@
                    && final(self).text_editor.indicator == (if old(self).text_editor.indicator
                    > 0 {
                    old(self).text_editor.indicator - 1
                } else {
                    0int
                }),
                EditKey::Right => final(self).text_editor.text@ == old(self).text_editor.text@
                    && final(self).text_editor.indicator == (if old(self).text_editor.indicator
                    < old(self).text_editor.text.len() {
                    old(self).text_editor.indicator + 1
                } else {
                    old(self).text_editor.text.len() as int
                }),
                EditKey::Home => final(self).text_editor.text@ == old(self).text_editor.text@
                    && final(self).text_editor.indicator == 0,
                EditKey::End => final(self).text_editor.text@ == old(self).text_editor.text@
                    && final(self).text_editor.indicator == old(self).text_editor.text.len(),
            },
    {
        match key {
            EditKey::Backspace => {
                let changed = self.text_editor.indicator > 0;
                self.text_editor.backspace();
                changed
            },
            EditKey::Left => {
                self.text_editor.move_left();
                false
            },
            EditKey::Right => {
                self.text_editor.move_right();
                false
            },
            EditKey::Home => {
                self.text_editor.move_home();
                false
            },
            EditKey::End => {
                self.text_editor.move_end();
                false
            },
        }
    }

    /// Insert one typed character at the cursor.
    pub fn handle_char(&mut self, c: char)
        requires
            old(self).wf(),
            old(self).text_editor.text.len() < usize::MAX,
        ensures
            final(self).wf(),
            final(self).text_editor.text@ == old(self).text_editor.text@.insert(
                old(self).text_editor.indicator as int,
                c,
            ),
            final(self).text_editor.indicator == old(self).text_editor.indicator + 1,
            final(self).text_size == old(self).text_size,
            final(self).textbox_dims == old(self).textbox_dims,
            final(self).textscale == old(self).textscale,
            final(self).bounds == old(self).bounds,
            final(self).display_text == old(self).display_text,
    {
        self.text_editor.insert_char(c);
    }
}

/// The minimum panel box: `0.26` of the window width by `0.7` of its
/// height (one axis each).
pub open spec fn arrange_min_x(dw: Q) -> Q {
    q_norm(q_mul(Q { n: 26, d: 100 }, dw))
}

pub open spec fn arrange_min_y(dh: Q) -> Q {
    q_norm(q_mul(Q { n: 7, d: 10 }, dh))
}

/// The text panel's box: the panel's share of the window, one axis each.
pub open spec fn arrange_box_x(tm: TextManager, dw: Q) -> Q {
    q_norm(q_mul(dw, tm.textbox_dims.x@))
}

pub open spec fn arrange_box_y(tm: TextManager, dh: Q) -> Q {
    q_norm(q_mul(dh, tm.textbox_dims.y@))
}

/// The content size the panel scrolls over: the measured text size, but
/// never below the minimum box (the measurement-failure fallback).
pub open spec fn arrange_content_x(tm: TextManager, dw: Q) -> Q {
    panel_content_axis(tm.text_size.x@, arrange_min_x(dw))
}

pub open spec fn arrange_content_y(tm: TextManager, dh: Q) -> Q {
    panel_content_axis(tm.text_size.y@, arrange_min_y(dh))
}

/// Where the panel sits on screen: at `0.7` of the window width and
/// `0.3` of its height.
pub open spec fn arrange_origin_x(dw: Q) -> Q {
    q_norm(q_mul(dw, Q { n: 7, d: 10 }))
}

pub open spec fn arrange_origin_y(dh: Q) -> Q {
    q_norm(q_mul(dh, Q { n: 3, d: 10 }))
}

/// The glyph the cursor sits on: the cursor index, clamped to the last
/// glyph.
pub open spec fn cursor_glyph_index(tm: TextManager, nglyphs: int) -> int {
    if tm.text_editor.indicator <= nglyphs - 1 {
        tm.text_editor.indicator as int
    } else {
        nglyphs - 1
    }
}

/// The pan-to-cursor offset: the cursor glyph's vertical position times
/// `-1.1`, so one extra line below the cursor stays visible; zero when
/// there is nothing to measure.
pub open spec fn arrange_cursor_y(tm: TextManager, gs: Seq<Q>) -> Q {
    if tm.text_editor.text.len() > 0 && gs.len() > 0 {
        q_norm(q_mul(gs[cursor_glyph_index(tm, gs.len() as int)], Q { n: -11, d: 10 }))
    } else {
        q_zero()
    }
}

/// Whether every exact intermediate of [`TextManager::arrange_camera`]
/// has a machine representation.
pub open spec fn arrange_fits(tm: TextManager, dw: Q, dh: Q, gs: Seq<Q>) -> bool {
    &&& (tm.text_editor.text.len() > 0 && gs.len() > 0 ==> q_fits(
        q_mul(gs[cursor_glyph_index(tm, gs.len() as int)], Q { n: -11, d: 10 }),
    ))
    &&& q_fits(q_mul(Q { n: 26, d: 100 }, dw))
    &&& q_fits(q_mul(Q { n: 7, d: 10 }, dh))
    &&& q_fits(q_mul(dw, tm.textbox_dims.x@))
    &&& q_fits(q_mul(dh, tm.textbox_dims.y@))
    &&& q_fits(q_mul(dw, Q { n: 7, d: 10 }))
    &&& q_fits(q_mul(dh, Q { n: 3, d: 10 }))
    &&& q_fits(q_div(arrange_box_x(tm, dw), arrange_content_x(tm, dw)))
    &&& q_fits(q_sub(arrange_box_y(tm, dh), arrange_content_y(tm, dh)))
}

/// All four derived panel dimensions are positive.
pub open spec fn arrange_positive(tm: TextManager, dw: Q, dh: Q) -> bool {
    &&& q_lt(q_zero(), arrange_box_x(tm, dw))
    &&& q_lt(q_zero(), arrange_box_y(tm, dh))
    &&& q_lt(q_zero(), arrange_content_x(tm, dw))
    &&& q_lt(q_zero(), arrange_content_y(tm, dh))
}

impl TextManager {
    /// Fit the text-window camera to the panel: lock its scale to the
    /// horizontal fit of the panel box over the content size, and pan so
    /// the cursor glyph stays visible.  `glyph_ys` are the glyph
    /// vertical positions the rendering backend measured for the current
    /// buffer; when it measured nothing, the pan falls back to the top.
    pub fn arrange_camera(
        &self,
        glyph_ys: &Vec<Rational>,
        drawable: &Position,
        camera: &mut Camera,
    ) -> (r: Result<(), CameraError>)
        requires
            self.wf(),
            drawable.wf(),
            old(camera).wf(),
            forall|i: int| 0 <= i < glyph_ys@.len() ==> (#[trigger] glyph_ys@[i]).wf(),
        ensures
            r is Ok <==> arrange_fits(
                *self,
                drawable.x@,
                drawable.y@,
                glyph_ys@.map_values(|g: Rational| g@),
            ) && arrange_positive(*self, drawable.x@, drawable.y@),
            match r {
                Ok(()) => {
                    &&& final(camera).wf()
                    &&& final(camera).in_limits()
                    &&& final(camera).scale@ == q_norm(
                        q_div(
                            arrange_box_x(*self, drawable.x@),
                            arrange_content_x(*self, drawable.x@),
                        ),
                    )
                    &&& final(camera).scale_min == final(camera).scale
                    &&& final(camera).scale_max == final(camera).scale
                    &&& final(camera).offset_min.y@ == q_min(
                        q_norm(
                            q_sub(
                                arrange_box_y(*self, drawable.y@),
                                arrange_content_y(*self, drawable.y@),
                            ),
                        ),
                        q_zero(),
                    )
                    &&& final(camera).offset.y@ == q_clamp(
                        arrange_cursor_y(*self, glyph_ys@.map_values(|g: Rational| g@)),
                        final(camera).offset_min.y@,
                        q_zero(),
                    )
                    &&& final(camera).offset.x@ == q_zero()
                    &&& final(camera).offset_min.x@ == q_zero()
                    &&& final(camera).offset_max.x@ == q_zero()
                    &&& final(camera).offset_max.y@ == q_zero()
                    &&& final(camera).viewport_position.x@ == arrange_origin_x(drawable.x@)
                    &&& final(camera).viewport_position.y@ == arrange_origin_y(drawable.y@)
                    &&& final(camera).viewport_size.x@ == arrange_box_x(*self, drawable.x@)
                    &&& final(camera).viewport_size.y@ == arrange_box_y(*self, drawable.y@)
                },
                Err(e) => (e == CameraError::InvalidDimension || e == CameraError::Overflow)
                    && *final(camera) == *old(camera),
            },
    {
        let ghost gs = glyph_ys@.map_values(|g: Rational| g@);
        let zero = Rational::zero();
        let mut ind_y = zero;
        if self.text_editor.text.len() > 0 && glyph_ys.len() > 0 {
            let last: usize = glyph_ys.len() - 1;
            let ind: usize = if self.text_editor.indicator <= last {
                self.text_editor.indicator
            } else {
                last
            };
            ind_y = match glyph_ys[ind].mul(&Rational::from_ratio(-11, 10)) {
                Some(v) => v,
                None => {
                    return Err(CameraError::Overflow);
                },
            };
        }
        let min_x = match Rational::from_ratio(26, 100).mul(&drawable.x) {
            Some(v) => v,
            None => {
                return Err(CameraError::Overflow);
            },
        };
        let min_y = match Rational::from_ratio(7, 10).mul(&drawable.y) {
            Some(v) => v,
            None => {
                return Err(CameraError::Overflow);
            },
        };
        let box_x = match drawable.x.mul(&self.textbox_dims.x) {
            Some(v) => v,
            None => {
                return Err(CameraError::Overflow);
            },
        };
        let box_y = match drawable.y.mul(&self.textbox_dims.y) {
            Some(v) => v,
            None => {
                return Err(CameraError::Overflow);
            },
        };
        let origin_x = match drawable.x.mul(&Rational::from_ratio(7, 10)) {
            Some(v) => v,
            None => {
                return Err(CameraError::Overflow);
            },
        };
        let origin_y = match drawable.y.mul(&Rational::from_ratio(3, 10)) {
            Some(v) => v,
            None => {
                return Err(CameraError::Overflow);
            },
        };
        let content_x = self.text_size.x.max(&min_x);
        let content_y = self.text_size.y.max(&min_y);
        camera.scale_to_fit_horizontal(
            &Position::new(box_x, box_y),
            &Position::new(content_x, content_y),
            &Position::new(origin_x, origin_y),
            &ind_y,
        )
    }
}

/// `norm(a * b) * c` denotes the same value as `(a * b) * c`.
proof fn lemma_mul_norm_left(a: Q, b: Q, c: Q)
    requires
        crate::rational::q_wf(a),
        crate::rational::q_wf(b),
        crate::rational::q_wf(c),
    ensures
        crate::rational::q_wf(q_mul(a, b)),
        q_eq(q_norm(q_mul(q_norm(q_mul(a, b)), c)), q_mul(q_mul(a, b), c)),
{
    crate::rational::lemma_q_ops_wf(a, b);
    crate::rational::lemma_q_norm_eq(q_mul(a, b));
    crate::rational::lemma_q_ops_wf(q_norm(q_mul(a, b)), c);
    crate::rational::lemma_q_ops_wf(q_mul(a, b), c);
    crate::rational::lemma_q_mul_congr(q_norm(q_mul(a, b)), c, q_mul(a, b), c);
    crate::rational::lemma_q_norm_eq(q_mul(q_norm(q_mul(a, b)), c));
    crate::rational::lemma_q_eq_trans(
        q_norm(q_mul(q_norm(q_mul(a, b)), c)),
        q_mul(q_norm(q_mul(a, b)), c),
        q_mul(q_mul(a, b), c),
    );
}

} // verus!
