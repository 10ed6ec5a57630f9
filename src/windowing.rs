//! Windows: how they are configured and what each one owns.
use vstd::prelude::*;
use crate::rendering::color::Color;
use crate::rendering::renderer::Renderer2D;

verus! {

/// A window of the engine: its identifier in the window system, the native
/// resources it holds (`H`), its renderer's state and its clear color.
#[derive(Debug)]
pub struct Window<H> {
    pub id: u64,
    pub handle: H,
    pub renderer: Renderer2D,
    pub clear_color: Color,
}

/// What the window system is asked for when a window is opened.
#[derive(Debug, Clone)]
pub struct WindowAttributes {
    pub title: String,
    /// The inner size in logical pixels, when one was asked for.
    pub inner_size: Option<(u32, u32)>,
    pub resizable: bool,
}

/// The customizable options of a window: a title, an optional size, an
/// optional clear color, and whether the user may resize it.
#[derive(Debug, Clone)]
pub struct WindowConfig {
    pub title: String,
    pub width: Option<u32>,
    pub height: Option<u32>,
    pub clear_color: Option<Color>,
    pub resizable: bool,
}

impl Default for WindowConfig {
    /// Titled "Pine", 500 by 500, cleared to opaque black, resizable.
    fn default() -> (c: WindowConfig)
        ensures
            c.title@ == "Pine"@,
            c.width == Some(500u32),
            c.height == Some(500u32),
            c.clear_color == Some(Color { r: 0, g: 0, b: 0, a: 255 }),
            c.resizable,
    {
        WindowConfig {
            title: "Pine".to_string(),
            width: Some(500),
            height: Some(500),
            clear_color: Some(Color::black()),
            resizable: true,
        }
    }
}

impl WindowConfig {
    /// The color a window built from this configuration clears to: the
    /// configured one, or opaque black when none is set.
    pub open spec fn spec_clear_color(self) -> Color {
        match self.clear_color {
            Some(c) => c,
            None => Color { r: 0, g: 0, b: 0, a: 255 },
        }
    }

    /// Sets the title of the window.
    pub fn with_title(self, title: &str) -> (c: WindowConfig)
        ensures
            c.title@ == title@,
            c.width == self.width,
            c.height == self.height,
            c.clear_color == self.clear_color,
            c.resizable == self.resizable,
    {
        WindowConfig { title: title.to_string(), ..self }
    }

    /// Sets whether the window is resizable.
    pub fn with_resizable(self, resizable: bool) -> (c: WindowConfig)
        ensures
            c.title@ == self.title@,
            c.width == self.width,
            c.height == self.height,
            c.clear_color == self.clear_color,
            c.resizable == resizable,
    {
        WindowConfig { resizable, ..self }
    }

    /// Sets the clear color of the window.
    pub fn with_clear_color(self, color: Color) -> (c: WindowConfig)
        ensures
            c.title@ == self.title@,
            c.width == self.width,
            c.height == self.height,
            c.clear_color == Some(color),
            c.resizable == self.resizable,
    {
        WindowConfig { clear_color: Some(color), ..self }
    }

    /// Sets the inner size of the window, in logical pixels.
    pub fn with_size(self, width: u32, height: u32) -> (c: WindowConfig)
        ensures
            c.title@ == self.title@,
            c.width == Some(width),
            c.height == Some(height),
            c.clear_color == self.clear_color,
            c.resizable == self.resizable,
    {
        WindowConfig { width: Some(width), height: Some(height), ..self }
    }

    /// What the window system is asked for: the title, the inner size when
    /// both sides are set, and whether the window is resizable.
    pub fn attributes(&self) -> (a: WindowAttributes)
        ensures
            a.title@ == self.title@,
            a.resizable == self.resizable,
            a.inner_size == (match (self.width, self.height) {
                (Some(w), Some(h)) => Some((w, h)),
                _ => None,
            }),
    {
        let inner_size = match (self.width, self.height) {
            (Some(w), Some(h)) => Some((w, h)),
            _ => None,
        };
        WindowAttributes { title: self.title.clone(), inner_size, resizable: self.resizable }
    }

    /// The clear color of a window built from this configuration.
    pub fn resolved_clear_color(&self) -> (c: Color)
        ensures
            c == self.spec_clear_color(),
    {
        match self.clear_color {
            Some(c) => c,
            None => Color::black(),
        }
    }

    /// Assembles a window from this configuration, once the window system
    /// has opened it (`id`, `handle`) and its renderer is ready.
    pub fn build<H>(&self, id: u64, handle: H, renderer: Renderer2D) -> (w: Window<H>)
        ensures
            w.id == id,
            w.handle == handle,
            w.renderer == renderer,
            w.clear_color == self.spec_clear_color(),
    {
        Window { id, handle, renderer, clear_color: self.resolved_clear_color() }
    }
}

} // verus!
