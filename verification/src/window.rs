//! Window dimensions and the description of a window to open.

use vstd::prelude::*;
use crate::error::EngineError;

verus! {

/// A width and a height in logical pixels.
#[derive(Debug, Clone, Copy, PartialEq, Eq, Structural)]
pub struct Dimensions {
    pub width: u32,
    pub height: u32,
}

impl Dimensions {
    /// Both components are strictly greater than zero.
    pub open spec fn valid(self) -> bool {
        self.width > 0 && self.height > 0
    }

    pub fn new(width: u32, height: u32) -> (dimensions: Dimensions)
        ensures
            dimensions.width == width,
            dimensions.height == height,
    {
        Dimensions { width, height }
    }
}

/// Checks that both the width and the height are greater than zero.
pub fn dimensions_valid(dimensions: &Dimensions) -> (valid: bool)
    ensures
        valid == dimensions.valid(),
{
    dimensions.width > 0 && dimensions.height > 0
}

/// A window as the engine knows it: its title and its inner size.
///
/// The inner size of a window always has a width and a height greater than
/// zero.
#[derive(Debug)]
pub struct Window {
    title: String,
    inner_size: Dimensions,
}

impl Window {
    /// The characters of the title.
    pub closed spec fn title_text(self) -> Seq<char> {
        self.title@
    }

    /// The inner size.
    pub closed spec fn size(self) -> Dimensions {
        self.inner_size
    }

    /// The inner size is valid. This holds of every window.
    #[verifier::type_invariant]
    pub open spec fn has_area(self) -> bool {
        self.size().valid()
    }

    /// The title of the window.
    pub fn title(&self) -> (title: &str)
        ensures
            title@ == self.title_text(),
    {
        self.title.as_str()
    }

    /// The inner size of the window, which is always valid.
    pub fn inner_size(&self) -> (size: Dimensions)
        ensures
            size == self.size(),
            size.valid(),
    {
        proof {
            use_type_invariant(self);
        }
        self.inner_size
    }

    /// Gives the window another title.
    pub fn set_title(&mut self, title: &str)
        ensures
            final(self).title_text() == title@,
            final(self).size() == old(self).size(),
    {
        proof {
            use_type_invariant(&*self);
        }
        self.title = title.to_owned();
    }

    /// Gives the window another inner size, if the dimensions are valid, and
    /// says whether it did. The title stays.
    pub fn set_inner_size(&mut self, dimensions: &Dimensions) -> (accepted: bool)
        ensures
            accepted == dimensions.valid(),
            dimensions.valid() ==> final(self).size() == *dimensions,
            !dimensions.valid() ==> final(self).size() == old(self).size(),
            final(self).title_text() == old(self).title_text(),
    {
        if !dimensions_valid(dimensions) {
            return false;
        }
        self.inner_size = *dimensions;
        true
    }
}

impl Default for Window {
    /// The window of an application that is made with default values: 800 by
    /// 600 logical pixels, titled "Corrosive Application".
    fn default() -> (window: Window)
        ensures
            window.title_text() == "Corrosive Application"@,
            window.size() == (Dimensions { width: 800, height: 600 }),
    {
        Window {
            title: "Corrosive Application".to_owned(),
            inner_size: Dimensions { width: 800, height: 600 },
        }
    }
}

/// Describes a window of the given dimensions and title.
///
/// Dimensions with a zero component are refused with
/// [`EngineError::DimensionError`]. Every other request yields a window that
/// has the title and the dimensions as given.
pub fn create(dimensions: &Dimensions, name: String) -> (result: Result<Window, EngineError>)
    ensures
        dimensions.valid() <==> result is Ok,
        result matches Ok(window) ==> window.title_text() == name@ && window.size() == *dimensions,
        result matches Err(error) ==> error == EngineError::DimensionError,
{
    if !dimensions_valid(dimensions) {
        return Err(EngineError::DimensionError);
    }
    Ok(Window { title: name, inner_size: *dimensions })
}

} // verus!
