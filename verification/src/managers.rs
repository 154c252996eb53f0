//! The keyboard layout and the window margins that the widget was configured with.
use crate::geometry::Size;
use crate::text::owned_string;
use vstd::prelude::*;

verus! {

/// The configured keyboard layout and variant, if any.
#[derive(Debug)]
pub struct KeyboardConfig {
    pub keyboard_layout: Option<String>,
    pub keyboard_variant: Option<String>,
}

/// The text of an optional string.
pub open spec fn optional_text(s: Option<String>) -> Option<Seq<char>> {
    match s {
        Some(t) => Some(t@),
        None => None,
    }
}

fn clone_optional(s: &Option<String>) -> (r: Option<String>)
    ensures
        optional_text(r) == optional_text(*s),
{
    match s {
        Some(t) => Some(t.clone()),
        None => None,
    }
}

impl KeyboardConfig {
    /// A builder that starts with neither layout nor variant.
    pub fn builder() -> (b: KeyboardConfigBuilder)
        ensures
            b.keyboard_layout is None,
            b.keyboard_variant is None,
    {
        KeyboardConfigBuilder { keyboard_layout: None, keyboard_variant: None }
    }
}

/// Sets the fields of a `KeyboardConfig`; unset fields stay `None`.
pub struct KeyboardConfigBuilder {
    pub keyboard_layout: Option<String>,
    pub keyboard_variant: Option<String>,
}

impl KeyboardConfigBuilder {
    /// Sets the layout.
    pub fn keyboard_layout(self, keyboard_layout: Option<String>) -> (b: Self)
        ensures
            b.keyboard_layout == keyboard_layout,
            b.keyboard_variant == self.keyboard_variant,
    {
        KeyboardConfigBuilder { keyboard_layout, keyboard_variant: self.keyboard_variant }
    }

    /// Sets the variant.
    pub fn keyboard_variant(self, keyboard_variant: Option<String>) -> (b: Self)
        ensures
            b.keyboard_layout == self.keyboard_layout,
            b.keyboard_variant == keyboard_variant,
    {
        KeyboardConfigBuilder { keyboard_layout: self.keyboard_layout, keyboard_variant }
    }

    /// The configuration set so far.
    pub fn build(self) -> (c: KeyboardConfig)
        ensures
            c.keyboard_layout == self.keyboard_layout,
            c.keyboard_variant == self.keyboard_variant,
    {
        KeyboardConfig { keyboard_layout: self.keyboard_layout, keyboard_variant: self.keyboard_variant }
    }
}

/// Hands out the keyboard layout, `us` when none was configured.
#[derive(Debug)]
pub struct KeyboardManager {
    pub keyboard_config: KeyboardConfig,
}

/// The layout in effect: the configured one, else `us`.
pub open spec fn effective_layout(configured: Option<Seq<char>>) -> Seq<char> {
    match configured {
        Some(l) => l,
        None => "us"@,
    }
}

impl KeyboardManager {
    /// A manager for the given configuration.
    pub fn new(config: KeyboardConfig) -> (m: Self)
        ensures
            m.keyboard_config == config,
    {
        KeyboardManager { keyboard_config: config }
    }

    /// The configured layout, or `us`.
    pub fn keyboard_layout(&self) -> (l: String)
        ensures
            l@ == effective_layout(optional_text(self.keyboard_config.keyboard_layout)),
    {
        match &self.keyboard_config.keyboard_layout {
            Some(layout) => layout.clone(),
            None => owned_string("us"),
        }
    }

    /// The configured variant, if any.
    pub fn keyboard_variant(&self) -> (v: Option<String>)
        ensures
            optional_text(v) == optional_text(self.keyboard_config.keyboard_variant),
    {
        clone_optional(&self.keyboard_config.keyboard_variant)
    }

    /// Configures the layout.
    pub fn set_keyboard_layout(&mut self, keyboard_layout: String)
        ensures
            optional_text(final(self).keyboard_config.keyboard_layout) == Some(keyboard_layout@),
            optional_text(final(self).keyboard_config.keyboard_variant) == optional_text(
                old(self).keyboard_config.keyboard_variant,
            ),
    {
        self.keyboard_config.keyboard_layout = Some(keyboard_layout);
    }

    /// Configures the variant.
    pub fn set_keyboard_variant(&mut self, keyboard_variant: String)
        ensures
            optional_text(final(self).keyboard_config.keyboard_variant) == Some(keyboard_variant@),
            optional_text(final(self).keyboard_config.keyboard_layout) == optional_text(
                old(self).keyboard_config.keyboard_layout,
            ),
    {
        self.keyboard_config.keyboard_variant = Some(keyboard_variant);
    }
}

/// The configured margins in pixels.
#[derive(Debug, Clone, Copy, PartialEq, Eq, Structural)]
pub struct MarginConfig {
    pub margin_left: u32,
    pub margin_right: u32,
    pub margin_top: u32,
    pub margin_bottom: u32,
    pub dialog_margin: u32,
}

impl MarginConfig {
    /// A builder that starts with every margin at 0.
    pub fn builder() -> (b: MarginConfigBuilder)
        ensures
            b.config == (MarginConfig {
                margin_left: 0,
                margin_right: 0,
                margin_top: 0,
                margin_bottom: 0,
                dialog_margin: 0,
            }),
    {
        MarginConfigBuilder {
            config: MarginConfig {
                margin_left: 0,
                margin_right: 0,
                margin_top: 0,
                margin_bottom: 0,
                dialog_margin: 0,
            },
        }
    }
}

/// Sets the fields of a `MarginConfig` one at a time.
pub struct MarginConfigBuilder {
    pub config: MarginConfig,
}

impl MarginConfigBuilder {
    /// Sets the left margin.
    pub fn margin_left(self, margin_left: u32) -> (b: Self)
        ensures
            b.config == (MarginConfig { margin_left, ..self.config }),
    {
        MarginConfigBuilder { config: MarginConfig { margin_left, ..self.config } }
    }

    /// Sets the right margin.
    pub fn margin_right(self, margin_right: u32) -> (b: Self)
        ensures
            b.config == (MarginConfig { margin_right, ..self.config }),
    {
        MarginConfigBuilder { config: MarginConfig { margin_right, ..self.config } }
    }

    /// Sets the top margin.
    pub fn margin_top(self, margin_top: u32) -> (b: Self)
        ensures
            b.config == (MarginConfig { margin_top, ..self.config }),
    {
        MarginConfigBuilder { config: MarginConfig { margin_top, ..self.config } }
    }

    /// Sets the bottom margin.
    pub fn margin_bottom(self, margin_bottom: u32) -> (b: Self)
        ensures
            b.config == (MarginConfig { margin_bottom, ..self.config }),
    {
        MarginConfigBuilder { config: MarginConfig { margin_bottom, ..self.config } }
    }

    /// Sets the dialog margin.
    pub fn dialog_margin(self, dialog_margin: u32) -> (b: Self)
        ensures
            b.config == (MarginConfig { dialog_margin, ..self.config }),
    {
        MarginConfigBuilder { config: MarginConfig { dialog_margin, ..self.config } }
    }

    /// The configuration set so far.
    pub fn build(self) -> (c: MarginConfig)
        ensures
            c == self.config,
    {
        self.config
    }
}

/// Reads and changes the window margins.
pub struct MarginManager {
    pub margin_config: MarginConfig,
}

impl MarginManager {
    /// A manager for the given margins.
    pub fn new(margin_config: MarginConfig) -> (m: Self)
        ensures
            m.margin_config == margin_config,
    {
        MarginManager { margin_config }
    }

    /// The left margin.
    pub fn margin_left(&self) -> (m: u32)
        ensures
            m == self.margin_config.margin_left,
    {
        self.margin_config.margin_left
    }

    /// The right margin.
    pub fn margin_right(&self) -> (m: u32)
        ensures
            m == self.margin_config.margin_right,
    {
        self.margin_config.margin_right
    }

    /// The top margin.
    pub fn margin_top(&self) -> (m: u32)
        ensures
            m == self.margin_config.margin_top,
    {
        self.margin_config.margin_top
    }

    /// The bottom margin.
    pub fn margin_bottom(&self) -> (m: u32)
        ensures
            m == self.margin_config.margin_bottom,
    {
        self.margin_config.margin_bottom
    }

    /// The margin kept around dialogs.
    pub fn dialog_margin(&self) -> (m: u32)
        ensures
            m == self.margin_config.dialog_margin,
    {
        self.margin_config.dialog_margin
    }

    /// Left plus right margin.
    pub fn margin_horizontal(&self) -> (m: u32)
        requires
            self.margin_config.margin_left + self.margin_config.margin_right <= u32::MAX,
        ensures
            m == self.margin_config.margin_left + self.margin_config.margin_right,
    {
        self.margin_left() + self.margin_right()
    }

    /// Top plus bottom margin.
    pub fn margin_vertical(&self) -> (m: u32)
        requires
            self.margin_config.margin_top + self.margin_config.margin_bottom <= u32::MAX,
        ensures
            m == self.margin_config.margin_top + self.margin_config.margin_bottom,
    {
        self.margin_top() + self.margin_bottom()
    }

    /// The space that the margins take: horizontal by vertical.
    pub fn margin_size(&self) -> (s: Size<u32>)
        requires
            self.margin_config.margin_left + self.margin_config.margin_right <= u32::MAX,
            self.margin_config.margin_top + self.margin_config.margin_bottom <= u32::MAX,
        ensures
            s.width == self.margin_config.margin_left + self.margin_config.margin_right,
            s.height == self.margin_config.margin_top + self.margin_config.margin_bottom,
    {
        Size::new(self.margin_horizontal(), self.margin_vertical())
    }

    /// Sets the left margin.
    pub fn set_margin_left(&mut self, margin_left: u32)
        ensures
            final(self).margin_config == (MarginConfig { margin_left, ..old(self).margin_config }),
    {
        self.margin_config.margin_left = margin_left;
    }

    /// Sets the right margin.
    pub fn set_margin_right(&mut self, margin_right: u32)
        ensures
            final(self).margin_config == (MarginConfig { margin_right, ..old(self).margin_config }),
    {
        self.margin_config.margin_right = margin_right;
    }

    /// Sets the top margin.
    pub fn set_margin_top(&mut self, margin_top: u32)
        ensures
            final(self).margin_config == (MarginConfig { margin_top, ..old(self).margin_config }),
    {
        self.margin_config.margin_top = margin_top;
    }

    /// Sets the bottom margin.
    pub fn set_margin_bottom(&mut self, margin_bottom: u32)
        ensures
            final(self).margin_config == (MarginConfig { margin_bottom, ..old(self).margin_config }),
    {
        self.margin_config.margin_bottom = margin_bottom;
    }

    /// Sets the dialog margin.
    pub fn set_dialog_margin(&mut self, dialog_margin: u32)
        ensures
            final(self).margin_config == (MarginConfig { dialog_margin, ..old(self).margin_config }),
    {
        self.margin_config.dialog_margin = dialog_margin;
    }
}

} // verus!
