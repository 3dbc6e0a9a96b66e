//! The window description the rendering backend builds from: windowed or
//! borderless, dimensions, and a title. Building the real window is the
//! backend's work; the builder itself is plain state.

use vstd::prelude::*;

verus! {

/// Whether the window is decorated at a fixed size or borderless at the
/// monitor's resolution.
#[derive(Copy, Clone, Debug, PartialEq, Eq, Structural)]
pub enum Windowed {
    Windowed,
    Borderless,
}

pub struct WindowBuilder {
    windowed: Windowed,
    dimensions: (u32, u32),
    title: String,
}

impl WindowBuilder {
    pub closed spec fn windowed_spec(&self) -> Windowed {
        self.windowed
    }

    pub closed spec fn dimensions_spec(&self) -> (u32, u32) {
        self.dimensions
    }

    pub closed spec fn title_spec(&self) -> Seq<char> {
        self.title@
    }

    /// The default description: windowed, 640 by 480, untitled.
    pub fn new() -> (r: WindowBuilder)
        ensures
            r.windowed_spec() == Windowed::Windowed,
            r.dimensions_spec() == (640u32, 480u32),
            r.title_spec() == "Untitled"@,
    {
        WindowBuilder {
            windowed: Windowed::Windowed,
            dimensions: (640, 480),
            title: "Untitled".to_owned(),
        }
    }

    /// Asks for a decorated window.
    pub fn with_windowed(self) -> (r: WindowBuilder)
        ensures
            r.windowed_spec() == Windowed::Windowed,
            r.dimensions_spec() == self.dimensions_spec(),
            r.title_spec() == self.title_spec(),
    {
        WindowBuilder { windowed: Windowed::Windowed, ..self }
    }

    /// Asks for a borderless window.
    pub fn with_borderless(self) -> (r: WindowBuilder)
        ensures
            r.windowed_spec() == Windowed::Borderless,
            r.dimensions_spec() == self.dimensions_spec(),
            r.title_spec() == self.title_spec(),
    {
        WindowBuilder { windowed: Windowed::Borderless, ..self }
    }

    /// Sets the window dimensions.
    pub fn with_dimensions(self, dimensions: (u32, u32)) -> (r: WindowBuilder)
        ensures
            r.dimensions_spec() == dimensions,
            r.windowed_spec() == self.windowed_spec(),
            r.title_spec() == self.title_spec(),
    {
        WindowBuilder { dimensions, ..self }
    }

    /// Sets the window title.
    pub fn with_title(self, title: String) -> (r: WindowBuilder)
        ensures
            r.title_spec() == title@,
            r.windowed_spec() == self.windowed_spec(),
            r.dimensions_spec() == self.dimensions_spec(),
    {
        WindowBuilder { title, ..self }
    }

    /// The requested windowing mode.
    pub fn get_windowed(&self) -> (r: Windowed)
        ensures
            r == self.windowed_spec(),
    {
        self.windowed
    }

    /// The requested dimensions.
    pub fn get_dimensions(&self) -> (r: (u32, u32))
        ensures
            r == self.dimensions_spec(),
    {
        self.dimensions
    }

    /// The requested title.
    pub fn get_title(&self) -> (r: &str)
        ensures
            r@ == self.title_spec(),
    {
        self.title.as_str()
    }
}

} // verus!
