//! The density of the fluid as a picture: one colour for each pixel of the
//! box.

use crate::color::{for_density, for_density_spec, Rgb};
use crate::fixed::Fixed;
use crate::params::SimulationParameters;
use crate::particle::Particle;
use crate::physics::RAW_HALF;
use crate::vec2::Vec2;
use vstd::prelude::*;

verus! {

/// How the box lies on the screen.
#[derive(Clone, Copy, Debug)]
pub struct ScreenLayout {
    /// Width of the box in screen units.
    pub box_width: u32,
    /// Height of the box in screen units.
    pub box_height: u32,
    /// Side of a pixel of the picture in screen units.
    pub pixel_size: u32,
    /// Screen units in one unit of length of the solver.
    pub screen_factor: Fixed,
}

impl ScreenLayout {
    /// Width and height of the picture in pixels.
    pub open spec fn image_size_spec(&self) -> (u32, u32) {
        (self.box_width / self.pixel_size, self.box_height / self.pixel_size)
    }

    /// Half the width and half the height of the box, in units of length of
    /// the solver.
    pub open spec fn physical_half_size_spec(&self) -> Vec2 {
        Vec2 {
            x: Fixed::int_spec(self.box_width as int).div(self.screen_factor).mul(
                Fixed { raw: RAW_HALF },
            ),
            y: Fixed::int_spec(self.box_height as int).div(self.screen_factor).mul(
                Fixed { raw: RAW_HALF },
            ),
        }
    }

    /// Width and height of the picture in pixels.
    pub fn image_size(&self) -> (r: (u32, u32))
        requires
            self.pixel_size > 0,
        ensures
            r == self.image_size_spec(),
    {
        (self.box_width / self.pixel_size, self.box_height / self.pixel_size)
    }

    /// Half the width and half the height of the box, in units of length of
    /// the solver.
    pub fn physical_half_size(&self) -> (r: Vec2)
        ensures
            r == self.physical_half_size_spec(),
    {
        Vec2 {
            x: Fixed::from_u32(self.box_width).div(self.screen_factor).mul(
                Fixed { raw: RAW_HALF },
            ),
            y: Fixed::from_u32(self.box_height).div(self.screen_factor).mul(
                Fixed { raw: RAW_HALF },
            ),
        }
    }
}

/// The point of the box at the middle of the pixel in column `x` and row
/// `y`, rows counted from the top.
pub open spec fn idx_to_screen_space_spec(x: u32, y: u32, layout: &ScreenLayout) -> Vec2 {
    let half = Fixed { raw: RAW_HALF };
    let pixel = Fixed::int_spec(layout.pixel_size as int);
    (Vec2 {
        x: Fixed::int_spec(layout.box_width as int).mul(half).neg().add(
            Fixed::int_spec(x as int).add(half).mul(pixel),
        ),
        y: Fixed::int_spec(layout.box_height as int).mul(half).sub(
            Fixed::int_spec(y as int).add(half).mul(pixel),
        ),
    }).div(layout.screen_factor)
}

/// The point of the box at the middle of a pixel.
pub fn idx_to_screen_space(x: u32, y: u32, layout: &ScreenLayout) -> (r: Vec2)
    ensures
        r == idx_to_screen_space_spec(x, y, layout),
{
    let half = Fixed { raw: RAW_HALF };
    let pixel = Fixed::from_u32(layout.pixel_size);
    (Vec2 {
        x: Fixed::from_u32(layout.box_width).mul(half).neg().add(
            Fixed::from_u32(x).add(half).mul(pixel),
        ),
        y: Fixed::from_u32(layout.box_height).mul(half).sub(
            Fixed::from_u32(y).add(half).mul(pixel),
        ),
    }).div(layout.screen_factor)
}

/// The colours of one column of the picture, from the top row down.
pub fn shade_column(
    x: u32,
    height: u32,
    layout: &ScreenLayout,
    particles: &Vec<Particle>,
    params: &SimulationParameters,
) -> (r: Vec<Rgb>)
    ensures
        r@.len() == height,
        forall|y: int|
            0 <= y < height ==> #[trigger] r@[y] == for_density_spec(
                idx_to_screen_space_spec(x, y as u32, layout),
                particles@,
                params,
            ),
{
    let mut column: Vec<Rgb> = Vec::new();
    let mut j: u32 = 0;
    while j < height
        invariant
            j <= height,
            column@.len() == j,
            forall|y: int|
                0 <= y < j ==> #[trigger] column@[y] == for_density_spec(
                    idx_to_screen_space_spec(x, y as u32, layout),
                    particles@,
                    params,
                ),
        decreases height - j,
    {
        let sample_point = idx_to_screen_space(x, j, layout);
        column.push(for_density(sample_point, particles, params));
        j = j + 1;
    }
    column
}

/// The colours of the whole picture, column by column.
pub fn update(
    layout: &ScreenLayout,
    particles: &Vec<Particle>,
    params: &SimulationParameters,
) -> (r: Vec<Vec<Rgb>>)
    requires
        layout.pixel_size > 0,
    ensures
        r@.len() == layout.image_size_spec().0,
        forall|x: int|
            0 <= x < r@.len() ==> (#[trigger] r@[x])@.len() == layout.image_size_spec().1,
        forall|x: int, y: int|
            0 <= x < layout.image_size_spec().0 && 0 <= y < layout.image_size_spec().1
                ==> #[trigger] r@[x]@[y] == for_density_spec(
                idx_to_screen_space_spec(x as u32, y as u32, layout),
                particles@,
                params,
            ),
{
    let size = layout.image_size();
    let mut image: Vec<Vec<Rgb>> = Vec::new();
    let mut i: u32 = 0;
    while i < size.0
        invariant
            i <= size.0,
            size == layout.image_size_spec(),
            image@.len() == i,
            forall|x: int| 0 <= x < i ==> (#[trigger] image@[x])@.len() == size.1,
            forall|x: int, y: int|
                0 <= x < i && 0 <= y < size.1 ==> #[trigger] image@[x]@[y] == for_density_spec(
                    idx_to_screen_space_spec(x as u32, y as u32, layout),
                    particles@,
                    params,
                ),
        decreases size.0 - i,
    {
        image.push(shade_column(i, size.1, layout, particles, params));
        i = i + 1;
    }
    image
}

} // verus!
