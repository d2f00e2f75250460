use vstd::prelude::*;
use crate::displays::display::Display;
use crate::geometry::vec2::{Vec2, Vec2u};
use crate::geometry::vec4::{Color, Vec4};
use crate::rasterizer::draw::{triangle_writes, Fill, Rasterizer};
use crate::rasterizer::linear_equation::Point;
use crate::rasterizer::triangle2d::{triangle_model, Triangle2d};

verus! {

/// The keys that the game tells apart.
#[derive(Clone, Copy, Debug, PartialEq, Eq, Structural)]
pub enum Keycode {
    F1,
    Escape,
    Other,
}

/// What the window reports, as far as the game reads it.
#[derive(Clone, Copy, Debug, PartialEq, Eq, Structural)]
pub enum Event {
    Quit,
    KeyDown { keycode: Option<Keycode> },
    Other,
}

/// A scene of five triangles, laid out for a screen of a given size and
/// stretched to the surface that it is drawn on.
#[derive(Clone, Copy, Debug)]
pub struct Game {
    pub base_screen_size: Vec2u,
    pub solid_fill: bool,
}

/// The colour of the scene.
pub open spec fn scene_color() -> Color {
    Vec4 { x: 94u8, y: 129u8, z: 172u8, w: 255u8 }
}

/// The corners of the `index`-th triangle of the scene, on the base screen.
pub open spec fn scene_corners(index: int) -> Seq<Vec2u> {
    if index == 0 {
        seq![Vec2 { x: 500u32, y: 20u32 }, Vec2 { x: 500u32, y: 20u32 }, Vec2 { x: 500u32, y: 20u32 }]
    } else if index == 1 {
        seq![Vec2 { x: 60u32, y: 30u32 }, Vec2 { x: 70u32, y: 20u32 }, Vec2 { x: 80u32, y: 30u32 }]
    } else if index == 2 {
        seq![Vec2 { x: 10u32, y: 25u32 }, Vec2 { x: 20u32, y: 20u32 }, Vec2 { x: 30u32, y: 80u32 }]
    } else if index == 3 {
        seq![
            Vec2 { x: 500u32, y: 200u32 },
            Vec2 { x: 200u32, y: 400u32 },
            Vec2 { x: 1300u32, y: 760u32 },
        ]
    } else {
        seq![
            Vec2 { x: 900u32, y: 200u32 },
            Vec2 { x: 1000u32, y: 200u32 },
            Vec2 { x: 950u32, y: 287u32 },
        ]
    }
}

/// A corner of the base screen carried over to the surface.
pub open spec fn projected(corner: Vec2u, bounds: Vec2u, surface: Vec2u) -> Point {
    Vec2 {
        x: crate::geometry::vec2::rescaled(corner.x as int, bounds.x as int, surface.x as int) as i32,
        y: crate::geometry::vec2::rescaled(corner.y as int, bounds.y as int, surface.y as int) as i32,
    }
}

/// The writes that paint one triangle whose corners are given on the base
/// screen.
#[verifier::opaque]
pub open spec fn corner_writes(corners: Seq<Vec2u>, bounds: Vec2u, surface: Vec2u, fill: Fill) -> Seq<
    (Point, Color),
> {
    triangle_writes(
        triangle_model(
            seq![
                projected(corners[0], bounds, surface),
                projected(corners[1], bounds, surface),
                projected(corners[2], bounds, surface),
            ],
        ),
        fill,
    )
}

impl Game {
    /// The fill that the scene is painted with.
    pub open spec fn fill(self) -> Fill {
        if self.solid_fill {
            Fill::Solid(scene_color())
        } else {
            Fill::Wireframe(scene_color())
        }
    }

    /// The writes that paint the scene on a surface of size `surface`: the
    /// five triangles one after the other, or nothing where the base screen
    /// has no width or no height.
    pub open spec fn scene_writes(self, surface: Vec2u) -> Seq<(Point, Color)> {
        let bounds = self.base_screen_size;
        if bounds.x == 0 || bounds.y == 0 {
            Seq::empty()
        } else {
            corner_writes(scene_corners(0), bounds, surface, self.fill()) + corner_writes(
                scene_corners(1),
                bounds,
                surface,
                self.fill(),
            ) + corner_writes(scene_corners(2), bounds, surface, self.fill()) + corner_writes(
                scene_corners(3),
                bounds,
                surface,
                self.fill(),
            ) + corner_writes(scene_corners(4), bounds, surface, self.fill())
        }
    }

    /// A game that paints outlines.
    pub fn new(base_screen_size: Vec2u) -> (r: Self)
        ensures
            r.base_screen_size == base_screen_size,
            !r.solid_fill,
    {
        Self { base_screen_size, solid_fill: false }
    }

    /// F1 switches between outlines and solid triangles; nothing else is
    /// acted on.
    pub fn handle_event(&mut self, event: &Event)
        ensures
            final(self).base_screen_size == old(self).base_screen_size,
            final(self).solid_fill == (old(self).solid_fill != (*event == Event::KeyDown {
                keycode: Some(Keycode::F1),
            })),
    {
        match event {
            Event::KeyDown { keycode: Some(Keycode::F1) } => {
                self.solid_fill = !self.solid_fill;
            },
            _ => {},
        }
    }

    fn draw_corners<D: Display>(
        &self,
        rasterizer: &mut Rasterizer<D>,
        surface: Vec2u,
        corners: [Vec2u; 3],
    )
        requires
            self.base_screen_size.x > 0,
            self.base_screen_size.y > 0,
        ensures
            final(rasterizer).written() == old(rasterizer).written() + corner_writes(
                corners@,
                self.base_screen_size,
                surface,
                self.fill(),
            ),
    {
        reveal(corner_writes);
        let fill = if self.solid_fill {
            Fill::Solid(Color::new(94, 129, 172, 255))
        } else {
            Fill::Wireframe(Color::new(94, 129, 172, 255))
        };
        let points = [
            corners[0].rescale(self.base_screen_size, surface),
            corners[1].rescale(self.base_screen_size, surface),
            corners[2].rescale(self.base_screen_size, surface),
        ];
        assert(points@ =~= seq![
            projected(corners[0], self.base_screen_size, surface),
            projected(corners[1], self.base_screen_size, surface),
            projected(corners[2], self.base_screen_size, surface),
        ]);
        rasterizer.draw(Triangle2d::new(points), fill);
    }

    /// Paints the scene on a display that is taken to be `surface` pixels
    /// wide and high.
    pub fn draw_scene<D: Display>(&self, rasterizer: &mut Rasterizer<D>, surface: Vec2u)
        ensures
            final(rasterizer).written() == old(rasterizer).written() + self.scene_writes(surface),
    {
        if self.base_screen_size.x == 0 || self.base_screen_size.y == 0 {
            assert(rasterizer.written() =~= old(rasterizer).written() + self.scene_writes(surface));
            return ;
        }
        let ghost before = rasterizer.written();
        let first = [Vec2u::new(500, 20), Vec2u::new(500, 20), Vec2u::new(500, 20)];
        let second = [Vec2u::new(60, 30), Vec2u::new(70, 20), Vec2u::new(80, 30)];
        let third = [Vec2u::new(10, 25), Vec2u::new(20, 20), Vec2u::new(30, 80)];
        let fourth = [Vec2u::new(500, 200), Vec2u::new(200, 400), Vec2u::new(1300, 760)];
        let fifth = [Vec2u::new(900, 200), Vec2u::new(1000, 200), Vec2u::new(950, 287)];
        proof {
            assert(first@ =~= scene_corners(0));
            assert(second@ =~= scene_corners(1));
            assert(third@ =~= scene_corners(2));
            assert(fourth@ =~= scene_corners(3));
            assert(fifth@ =~= scene_corners(4));
        }
        self.draw_corners(rasterizer, surface, first);
        self.draw_corners(rasterizer, surface, second);
        self.draw_corners(rasterizer, surface, third);
        self.draw_corners(rasterizer, surface, fourth);
        self.draw_corners(rasterizer, surface, fifth);
        assert(rasterizer.written() =~= before + self.scene_writes(surface));
    }

    /// Paints the scene, stretched to the size that the display reports
    /// when asked.
    pub fn main_loop<D: Display>(&mut self, rasterizer: &mut Rasterizer<D>)
        ensures
            *final(self) == *old(self),
            exists|surface: Vec2u|
                final(rasterizer).written() == old(rasterizer).written() + old(self).scene_writes(
                    surface,
                ),
    {
        let surface = rasterizer.size();
        self.draw_scene(rasterizer, surface);
    }
}

} // verus!
