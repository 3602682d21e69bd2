//! Backend-independent core of a small cross-backend renderer: matrix algebra,
//! mesh layout, an explicit Euler integrator, texture lifecycle, font state and
//! glyph atlas layout.
use vstd::prelude::*;
use vstd::std_specs::convert::FromSpec;
use vstd::std_specs::ops::DivSpec;

pub mod context;
pub mod linalg;
pub mod mesh;
pub mod numerical;
pub mod text;
pub mod texture;

use linalg::Vec4;

verus! {

/// An 8-bit RGBA colour.
#[derive(Clone, Copy, PartialEq, Eq, Structural, Debug)]
pub struct Color {
    pub r: u8,
    pub g: u8,
    pub b: u8,
    pub a: u8,
}

/// `/` on `T` is defined for every pair of operands (it never panics).
pub open spec fn total_div<T: core::ops::Div<Output = T>>() -> bool {
    forall|x: T, y: T| #[trigger] x.div_req(y)
}

/// A channel as a fraction of 256, in the scalar type `T`.
pub open spec fn channel_fraction<T: From<u16> + core::ops::Div<Output = T>>(c: u8) -> T {
    <T as FromSpec<u16>>::from_spec(c as u16).div_spec(<T as FromSpec<u16>>::from_spec(256))
}

impl Color {
    /// Opaque white.
    pub fn white() -> (c: Color)
        ensures
            c == (Color { r: 255, g: 255, b: 255, a: 255 }),
    {
        Color { r: 255, g: 255, b: 255, a: 255 }
    }

    /// The colour as a vector `(r, g, b, a) / 256`.
    pub fn as_vec4<T: Copy + From<u16> + core::ops::Div<Output = T>>(&self) -> (v: Vec4<T>)
        requires
            total_div::<T>() || (<T as FromSpec<u16>>::obeys_from_spec()
                && <T as DivSpec<T>>::obeys_div_spec() && forall|x: T| #[trigger] x.div_req(
                <T as FromSpec<u16>>::from_spec(256),
            )),
        ensures
            <T as FromSpec<u16>>::obeys_from_spec() && <T as DivSpec<T>>::obeys_div_spec() ==> v.data@
                == seq![
                channel_fraction::<T>(self.r),
                channel_fraction::<T>(self.g),
                channel_fraction::<T>(self.b),
                channel_fraction::<T>(self.a),
            ],
    {
        let scale = T::from(256u16);
        let r = T::from(self.r as u16) / scale;
        let g = T::from(self.g as u16) / scale;
        let b = T::from(self.b as u16) / scale;
        let a = T::from(self.a as u16) / scale;
        let v = Vec4::new([r, g, b, a]);
        assert(<T as FromSpec<u16>>::obeys_from_spec() && <T as DivSpec<T>>::obeys_div_spec() ==> v.data@ =~= seq![
                channel_fraction::<T>(self.r),
                channel_fraction::<T>(self.g),
                channel_fraction::<T>(self.b),
                channel_fraction::<T>(self.a),
            ]);
        v
    }
}

} // verus!
