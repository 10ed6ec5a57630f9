//! The state a window's renderer keeps between frames.
use vstd::prelude::*;
use crate::error::PineError;
use crate::rendering::camera::{AspectRatio, Camera};
use crate::rendering::color::Color;
use crate::rendering::frame_data::{FrameData, FrameDataBuilder};
use crate::rendering::scene::{SceneNode2D, Transform, arena_wf, SceneEntry};
use crate::rendering::surface::SurfaceConfig;

verus! {

/// The scene every renderer starts with: a root offset by (1, 1, 1) with
/// one child offset by (1, 2, 3).
pub fn demo_scene() -> (n: SceneNode2D)
    ensures
        arena_wf(n@),
        n@ == seq![
            SceneEntry { id: 0, transform: Transform { x: 1, y: 1, z: 1 }, parent: 0 },
            SceneEntry { id: 1, transform: Transform { x: 1, y: 2, z: 3 }, parent: 0 },
        ],
{
    let root = SceneNode2D::new().with_transform(Transform::from(1, 1, 1));
    let child = SceneNode2D::new().with_transform(Transform::from(1, 2, 3));
    let n = root.add_node(child);
    proof {
        assert(n@ =~= seq![
            SceneEntry { id: 0, transform: Transform { x: 1, y: 1, z: 1 }, parent: 0 },
            SceneEntry { id: 1, transform: Transform { x: 1, y: 2, z: 3 }, parent: 0 },
        ]);
    }
    n
}

/// What a renderer keeps between frames: its surface's configuration, its
/// camera and its scene.
#[derive(Debug)]
pub struct Renderer2D {
    pub surface_config: SurfaceConfig,
    pub camera: Camera,
    pub scene_graph: SceneNode2D,
}

impl Renderer2D {
    /// A renderer for a surface configured as given, with the default camera
    /// and the demo scene.
    pub fn new(surface_config: SurfaceConfig) -> (r: Renderer2D)
        ensures
            r.surface_config == surface_config,
            r.camera == Camera::spec_default(),
            r.camera.wf(),
            r.scene_graph@ == seq![
                SceneEntry { id: 0, transform: Transform { x: 1, y: 1, z: 1 }, parent: 0 },
                SceneEntry { id: 1, transform: Transform { x: 1, y: 2, z: 3 }, parent: 0 },
            ],
    {
        Renderer2D { surface_config, camera: Camera::default(), scene_graph: demo_scene() }
    }

    /// The state after a change of the window's size to `width` by `height`
    /// (see `resize`).
    pub open spec fn spec_resized(self, width: u32, height: u32) -> Renderer2D {
        if width == 0 || height == 0 {
            self
        } else {
            Renderer2D {
                surface_config: SurfaceConfig { width, height, ..self.surface_config },
                camera: Camera { aspect_ratio: AspectRatio { width, height }, ..self.camera },
                scene_graph: self.scene_graph,
            }
        }
    }

    /// Follows a change of the window's size. A size with a zero side (as
    /// while the window is minimized) changes nothing; otherwise the surface
    /// takes the new size and the camera's aspect ratio becomes
    /// `width / height`. The surface is configured anew at the next frame.
    pub fn resize(&mut self, width: u32, height: u32)
        ensures
            (width == 0 || height == 0) ==> *final(self) == *old(self),
            (width > 0 && height > 0) ==> {
                &&& final(self).surface_config == (SurfaceConfig {
                    width,
                    height,
                    ..old(self).surface_config
                })
                &&& final(self).camera == (Camera {
                    aspect_ratio: AspectRatio { width, height },
                    ..old(self).camera
                })
                &&& final(self).scene_graph == old(self).scene_graph
            },
            *final(self) == old(self).spec_resized(width, height),
    {
        if width > 0 && height > 0 {
            self.surface_config.width = width;
            self.surface_config.height = height;
            self.camera.set_aspect_ratio(width, height);
        }
    }

    /// Packages the surface created for this frame with the window's clear
    /// color; a surface that could not be created fails the frame.
    pub fn prepare<S>(&self, surface: Option<S>, clear_color: Color) -> (r: Result<FrameData<S>, PineError>)
        ensures
            r is Err <==> surface is None,
            r matches Err(e) ==> e == PineError::CreateSurfaceError,
            r matches Ok(f) ==> f.clear_color == clear_color && surface == Some(f.surface),
    {
        match surface {
            None => Err(PineError::CreateSurfaceError),
            Some(surface) => {
                let builder: FrameDataBuilder<S> = FrameDataBuilder::default();
                Ok(builder.with_surface(surface).with_clear_color(clear_color).build())
            },
        }
    }
}

} // verus!
