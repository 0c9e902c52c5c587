//! Text labels that keep the image of their text until the text changes.
//!
//! A label does not draw letters itself. It owns a rasteriser, a function
//! from a text and a colour to an image with its size, and calls it only
//! when an accessor finds the cache empty.

use vstd::prelude::*;
use crate::geometry::Point;

verus! {

/// A colour with an alpha channel.
#[derive(Clone, Copy, Debug, PartialEq, Eq, Structural)]
pub struct Color {
    pub r: u8,
    pub g: u8,
    pub b: u8,
    pub a: u8,
}

impl Color {
    /// An opaque colour.
    pub fn rgb(r: u8, g: u8, b: u8) -> (c: Color)
        ensures
            c == (Color { r, g, b, a: 255 }),
    {
        Color { r, g, b, a: 255 }
    }
}

/// What a rasteriser hands back: the image of a text and its size in pixels.
pub struct Raster<I> {
    pub image: I,
    pub width: u32,
    pub height: u32,
}

/// The error inside a result, if it holds one.
pub open spec fn failure<T>(res: Result<T, String>) -> Option<String> {
    match res {
        Ok(_) => None,
        Err(e) => Some(e),
    }
}

/// A text at a position, in one colour, with the image of that text cached.
///
/// `I` is the image type and `R` the rasteriser. Setting a new text empties
/// the cache; the next call of [`Label::texture`], [`Label::width`] or
/// [`Label::height`] fills it again with one call of the rasteriser.
pub struct Label<I, R> {
    text: String,
    rasterizer: R,
    pub position: Point,
    color: Color,
    cached: Option<Raster<I>>,
}

impl<I, R: Fn(&String, Color) -> Result<Raster<I>, String>> Label<I, R> {
    /// The text the label shows.
    pub closed spec fn spec_text(&self) -> String {
        self.text
    }

    /// The function that makes images of texts for this label.
    pub closed spec fn spec_rasterizer(&self) -> R {
        self.rasterizer
    }

    /// Where on the field the centre of the label is.
    pub closed spec fn spec_position(&self) -> Point {
        self.position
    }

    /// The colour of the letters.
    pub closed spec fn spec_color(&self) -> Color {
        self.color
    }

    /// The cached raster, if the cache is filled.
    pub closed spec fn spec_cache(&self) -> Option<Raster<I>> {
        self.cached
    }

    /// The rasteriser may be called with every text in this colour.
    pub open spec fn accepts_all(rasterizer: R, color: Color) -> bool {
        forall|t: String| #[trigger] call_requires(rasterizer, (&t, color))
    }

    /// `raster` is an answer the label's rasteriser can give for the label's
    /// current text and colour.
    pub open spec fn renders(&self, raster: Raster<I>) -> bool {
        call_ensures(
            self.spec_rasterizer(),
            (&self.spec_text(), self.spec_color()),
            Ok::<Raster<I>, String>(raster),
        )
    }

    /// `error` is a failure the label's rasteriser can report for the label's
    /// current text and colour.
    pub open spec fn fails_with(&self, error: String) -> bool {
        call_ensures(
            self.spec_rasterizer(),
            (&self.spec_text(), self.spec_color()),
            Err::<Raster<I>, String>(error),
        )
    }

    /// The rasteriser can always be called, and what the cache holds was
    /// rasterised from the current text.
    pub open spec fn wf(&self) -> bool {
        &&& Self::accepts_all(self.spec_rasterizer(), self.spec_color())
        &&& self.spec_cache() matches Some(r) ==> self.renders(r)
    }

    /// Rasteriser, position and colour are those of `before`.
    pub open spec fn same_settings(&self, before: Self) -> bool {
        &&& self.spec_rasterizer() == before.spec_rasterizer()
        &&& self.spec_position() == before.spec_position()
        &&& self.spec_color() == before.spec_color()
    }

    /// This label is `before` after its text was replaced by `text`: the
    /// cache is empty and nothing else differs.
    pub open spec fn text_set_from(&self, before: Self, text: String) -> bool {
        &&& self.same_settings(before)
        &&& self.spec_text() == text
        &&& self.spec_cache() is None
    }

    /// This label is `before` after an accessor ran. A filled cache is left
    /// alone and the accessor succeeds. An empty cache is filled with an
    /// answer of the rasteriser to the current text, or stays empty when the
    /// rasteriser failed with `failure`.
    pub open spec fn read_from(&self, before: Self, failure: Option<String>) -> bool {
        &&& self.same_settings(before)
        &&& self.spec_text() == before.spec_text()
        &&& match before.spec_cache() {
            Some(r) => failure is None && self.spec_cache() == Some(r),
            None => match failure {
                None => self.spec_cache() matches Some(r) && before.renders(r),
                Some(e) => self.spec_cache() is None && before.fails_with(e),
            },
        }
    }

    /// The last text set is the one shown. Setting texts rasterises nothing,
    /// however many are set in a row. The first accessor that succeeds after
    /// them fills the cache with an image of the last text, and the accessor
    /// after that finds the cache filled and leaves it alone.
    pub proof fn lemma_last_text_wins(
        start: Self,
        first: Self,
        second: Self,
        read: Self,
        again: Self,
        a: String,
        b: String,
        failure: Option<String>,
    )
        requires
            start.wf(),
            first.text_set_from(start, a),
            second.text_set_from(first, b),
            read.read_from(second, None),
            again.read_from(read, failure),
        ensures
            first.spec_cache() is None,
            second.spec_cache() is None,
            read.wf(),
            read.spec_text() == b,
            read.spec_cache() matches Some(raster) && call_ensures(
                start.spec_rasterizer(),
                (&b, start.spec_color()),
                Ok::<Raster<I>, String>(raster),
            ),
            failure is None,
            again.spec_cache() == read.spec_cache(),
            again.spec_text() == b,
    {
    }

    /// A label showing `text`, with the cache already filled.
    ///
    /// Fails exactly when the rasteriser fails on `text`, with its error.
    pub fn new(text: String, rasterizer: R, position: Point, color: Color) -> (res: Result<
        Self,
        String,
    >)
        requires
            Self::accepts_all(rasterizer, color),
        ensures
            match res {
                Ok(label) => {
                    &&& label.wf()
                    &&& label.spec_text() == text
                    &&& label.spec_rasterizer() == rasterizer
                    &&& label.spec_position() == position
                    &&& label.spec_color() == color
                    &&& label.spec_cache() is Some
                },
                Err(e) => call_ensures(rasterizer, (&text, color), Err::<Raster<I>, String>(e)),
            },
    {
        let mut label = Label { text, rasterizer, position, color, cached: None };
        match label.create_cache() {
            Ok(_) => Ok(label),
            Err(e) => Err(e),
        }
    }

    /// Where the label is drawn.
    pub fn position(&self) -> (position: Point)
        ensures
            position == self.spec_position(),
    {
        self.position
    }

    /// Replaces the text and empties the cache; nothing is rasterised yet.
    pub fn set_text(&mut self, text: String)
        ensures
            final(self).text_set_from(*old(self), text),
            old(self).wf() ==> final(self).wf(),
    {
        self.text = text;
        self.clear_cache();
    }

    fn clear_cache(&mut self)
        ensures
            final(self).same_settings(*old(self)),
            final(self).spec_text() == old(self).spec_text(),
            final(self).spec_cache() is None,
    {
        self.cached = None
    }

    /// The image of the current text, rasterised now if the cache is empty.
    pub fn texture(&mut self) -> (res: Result<&I, String>)
        requires
            old(self).wf(),
        ensures
            final(self).wf(),
            final(self).read_from(*old(self), failure(res)),
            res matches Ok(image) ==> final(self).spec_cache() matches Some(r) && r.image
                == *image,
    {
        if self.cached.is_none() {
            self.create_cache()?;
        }
        match &self.cached {
            Some(raster) => Ok(&raster.image),
            None => unreached(),
        }
    }

    /// One call of the rasteriser on the current text and colour.
    fn create_texture(&self) -> (res: Result<Raster<I>, String>)
        requires
            Self::accepts_all(self.spec_rasterizer(), self.spec_color()),
        ensures
            match res {
                Ok(raster) => self.renders(raster),
                Err(e) => self.fails_with(e),
            },
    {
        assert(self.spec_rasterizer() == self.rasterizer && self.spec_color() == self.color
            && self.spec_text() == self.text);
        (self.rasterizer)(&self.text, self.color)
    }

    /// Rasterises the current text and stores the answer.
    fn create_cache(&mut self) -> (res: Result<(), String>)
        requires
            Self::accepts_all(old(self).spec_rasterizer(), old(self).spec_color()),
        ensures
            final(self).same_settings(*old(self)),
            final(self).spec_text() == old(self).spec_text(),
            match res {
                Ok(_) => final(self).spec_cache() matches Some(r) && old(self).renders(r),
                Err(e) => final(self).spec_cache() == old(self).spec_cache() && old(
                    self,
                ).fails_with(e),
            },
    {
        let raster = self.create_texture()?;
        self.cached = Some(raster);
        Ok(())
    }

    /// The width of the image of the current text, rasterised now if the
    /// cache is empty.
    pub fn width(&mut self) -> (res: Result<u32, String>)
        requires
            old(self).wf(),
        ensures
            final(self).wf(),
            final(self).read_from(*old(self), failure(res)),
            res matches Ok(w) ==> final(self).spec_cache() matches Some(r) && r.width == w,
    {
        if !self.cached.is_some() {
            self.create_cache()?;
        }
        match &self.cached {
            Some(raster) => Ok(raster.width),
            None => unreached(),
        }
    }

    /// The height of the image of the current text, rasterised now if the
    /// cache is empty.
    pub fn height(&mut self) -> (res: Result<u32, String>)
        requires
            old(self).wf(),
        ensures
            final(self).wf(),
            final(self).read_from(*old(self), failure(res)),
            res matches Ok(h) ==> final(self).spec_cache() matches Some(r) && r.height == h,
    {
        if !self.cached.is_some() {
            self.create_cache()?;
        }
        match &self.cached {
            Some(raster) => Ok(raster.height),
            None => unreached(),
        }
    }
}

} // verus!
