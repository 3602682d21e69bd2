//! Backend-independent state of a rendering context: the font used by text drawing.
//!
//! The font texture is installed by the application; the shader that draws glyphs
//! is created the first time a font texture is installed and kept from then on.
use vstd::prelude::*;

verus! {

/// The font shader (`S`) and font texture (`X`) of a context. Once a font texture
/// is present, so is the font shader.
pub struct FontSlot<S, X> {
    shader: Option<S>,
    texture: Option<X>,
}

impl<S, X> FontSlot<S, X> {
    #[verifier::type_invariant]
    spec fn wf(self) -> bool {
        self.texture is Some ==> self.shader is Some
    }

    /// The font shader, once created.
    pub closed spec fn font_shader(self) -> Option<S> {
        self.shader
    }

    /// The font texture, once installed.
    pub closed spec fn font_texture(self) -> Option<X> {
        self.texture
    }

    /// A slot with neither shader nor texture.
    pub fn new() -> (r: Self)
        ensures
            r.font_shader() is None,
            r.font_texture() is None,
    {
        FontSlot { shader: None, texture: None }
    }

    /// Installs `texture` as the font texture, replacing any earlier one. The font
    /// shader is made by `make_shader` if, and only if, there is none yet.
    pub fn set_font_texture<F: FnOnce() -> S>(&mut self, texture: X, make_shader: F)
        requires
            old(self).font_shader() is None ==> call_requires(make_shader, ()),
        ensures
            final(self).font_texture() == Some(texture),
            old(self).font_shader() is Some ==> final(self).font_shader() == old(self).font_shader(),
            old(self).font_shader() is None ==> (final(self).font_shader() matches Some(s)
                && call_ensures(make_shader, (), s)),
    {
        if self.shader.is_none() {
            let shader = make_shader();
            self.shader = Some(shader);
        }
        self.texture = Some(texture);
    }

    /// The font shader and texture that text drawing needs, or `None` while no font
    /// texture has been installed (text drawing is then skipped).
    pub fn text_resources(&self) -> (r: Option<(&S, &X)>)
        ensures
            r is Some <==> self.font_texture() is Some,
            r matches Some((s, x)) ==> self.font_shader() == Some(*s) && self.font_texture() == Some(
                *x,
            ),
    {
        proof {
            use_type_invariant(self);
        }
        match (&self.shader, &self.texture) {
            (Some(s), Some(x)) => Some((s, x)),
            _ => None,
        }
    }
}

} // verus!
