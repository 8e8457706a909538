//! The context that the loop hands to the active view on every frame.

use crate::events::{last_resize, Events, RawEvent};
use crate::fonts::{keep_or_insert, FontCache, FontKey};
use vstd::prelude::*;

verus! {

/// Bundles what a view works with: the input accumulator, the renderer of
/// type `R`, the size of the drawing surface and the cache of loaded fonts
/// of type `F`.
pub struct Phi<R, F> {
    pub events: Events,
    pub renderer: R,
    /// The width and height of the drawing surface.
    pub size: (u32, u32),
    pub cached_fonts: FontCache<F>,
}

impl<R, F> Phi<R, F> {
    /// A context with no font cached, for a surface of the given size.
    pub fn new(events: Events, renderer: R, size: (u32, u32)) -> (phi: Phi<R, F>)
        ensures
            phi.events == events,
            phi.renderer == renderer,
            phi.size == size,
            phi.cached_fonts@ == Map::<FontKey, F>::empty(),
    {
        Phi { events, renderer, size, cached_fonts: FontCache::new() }
    }

    /// The width and height of the drawing surface, as of the last resize
    /// that `pump` has seen.
    pub fn output_size(&self) -> (size: (u32, u32))
        ensures
            size == self.size,
    {
        self.size
    }

    /// Whether `self` is what `pump` makes of `before` and the raw events
    /// `raw`: the input accumulator has run one tick on them, the size is
    /// that of the last resize among them, if there is one, and the rest
    /// is as it was.
    pub open spec fn pumped_from(self, before: Phi<R, F>, raw: Seq<RawEvent>) -> bool {
        &&& self.events.snapshot_spec() == before.events.snapshot_spec().pump_spec(raw)
        &&& self.events.resize_spec() == last_resize(raw)
        &&& self.size == match last_resize(raw) {
            Some(size) => size,
            None => before.size,
        }
        &&& self.renderer == before.renderer
        &&& self.cached_fonts == before.cached_fonts
    }

    /// Runs one tick of the input accumulator on `raw`, and takes over the
    /// size of the last resize among these events, if there is one.
    pub fn pump(&mut self, raw: &Vec<RawEvent>)
        ensures
            final(self).pumped_from(*old(self), raw@),
    {
        self.events.pump(raw);
        if let Some(size) = self.events.resize() {
            self.size = size;
        }
    }

    /// The font cached for the given font file and point size, if it was
    /// cached before.
    pub fn font(&self, path: &str, size: i32) -> (r: Option<&F>)
        ensures
            r is Some <==> self.cached_fonts@.contains_key((path@, size)),
            r matches Some(font) ==> *font == self.cached_fonts@[(path@, size)],
    {
        self.cached_fonts.get(path, size)
    }

    /// Caches a font that was loaded from the given font file at the given
    /// point size. A font that is cached under that key already lives on:
    /// then the cache stays as it is and `font` is dropped. Nothing else
    /// changes.
    pub fn cache_font(&mut self, path: &str, size: i32, font: F)
        ensures
            final(self).cached_fonts@ == keep_or_insert(
                old(self).cached_fonts@,
                (path@, size),
                font,
            ),
            final(self).events == old(self).events,
            final(self).renderer == old(self).renderer,
            final(self).size == old(self).size,
    {
        self.cached_fonts.insert(path, size, font);
    }
}

} // verus!
