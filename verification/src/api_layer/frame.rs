//! Frames: the layers that an application submits, and those that are handed to
//! the runtime in their place.
use crate::vulkan::UVec2;
use vstd::prelude::*;

verus! {

/// Blend mode: the composition hides the surroundings.
pub const OPAQUE: i32 = 1;

/// Blend mode: the composition is blended with the surroundings by its alpha.
pub const ALPHA_BLEND: i32 = 3;

/// Structure type of a passthrough layer.
pub const PASSTHROUGH_LAYER: i32 = 1000317004;

/// A composition layer of the application.
#[derive(Debug, Eq, PartialEq, Clone, Copy, Structural)]
pub struct Layer {
    /// Its structure type.
    pub ty: i32,
    /// Where the application keeps it.
    pub address: u64,
}

/// Part of a swapchain image.
#[derive(Debug, Eq, PartialEq, Clone, Copy, Structural)]
pub struct Rect {
    pub x: i32,
    pub y: i32,
    pub width: i32,
    pub height: i32,
}

/// What one eye sees of a projection layer.
#[derive(Debug, Eq, PartialEq, Clone, Copy, Structural)]
pub struct CameraView {
    /// The located view, by its number, whose pose and field of view this has.
    pub view: usize,
    pub rect: Rect,
}

/// A projection layer that shows the camera image: one half of the swapchain
/// image for each eye.
#[derive(Debug, Eq, PartialEq, Clone, Copy, Structural)]
pub struct CameraLayer {
    /// The layer is blended with what is behind it by its own alpha.
    pub blend_texture_source_alpha: bool,
    pub left: CameraView,
    pub right: CameraView,
}

/// A layer that is handed to the runtime.
#[derive(Debug, Eq, PartialEq, Clone, Copy, Structural)]
pub enum FrameLayer {
    /// A layer of the application, untouched.
    App(Layer),
    /// The camera image.
    Camera(CameraLayer),
}

/// A frame as the application ends it. Places in the list of layers may be
/// empty.
#[derive(Debug)]
pub struct FrameEndInfo {
    pub display_time: i64,
    pub environment_blend_mode: i32,
    pub layers: Vec<Option<Layer>>,
}

/// A frame for the runtime. The runtime reads the first `layer_count` entries
/// of `layers`.
#[derive(Debug)]
pub struct Frame {
    pub display_time: i64,
    pub environment_blend_mode: i32,
    pub layer_count: u32,
    pub layers: Vec<Option<FrameLayer>>,
}

/// What a [`FrameEndInfo`] says.
pub struct FrameEndInfoView {
    pub display_time: i64,
    pub environment_blend_mode: i32,
    pub layers: Seq<Option<Layer>>,
}

/// What a [`Frame`] says.
pub struct FrameView {
    pub display_time: i64,
    pub environment_blend_mode: i32,
    pub layer_count: u32,
    pub layers: Seq<Option<FrameLayer>>,
}

impl View for FrameEndInfo {
    type V = FrameEndInfoView;

    open spec fn view(&self) -> FrameEndInfoView {
        FrameEndInfoView {
            display_time: self.display_time,
            environment_blend_mode: self.environment_blend_mode,
            layers: self.layers@,
        }
    }
}

impl View for Frame {
    type V = FrameView;

    open spec fn view(&self) -> FrameView {
        FrameView {
            display_time: self.display_time,
            environment_blend_mode: self.environment_blend_mode,
            layer_count: self.layer_count,
            layers: self.layers@,
        }
    }
}

impl FrameView {
    /// The layers that the runtime looks at.
    pub open spec fn seen_layers(self) -> Seq<Option<FrameLayer>> {
        if self.layer_count <= self.layers.len() {
            self.layers.take(self.layer_count as int)
        } else {
            self.layers
        }
    }
}

/// Whether a place in a list of layers holds a passthrough layer.
pub open spec fn is_passthrough(layer: Option<Layer>) -> bool {
    layer matches Some(l) && l.ty == PASSTHROUGH_LAYER
}

/// Whether a place in a frame for the runtime holds a passthrough layer.
pub open spec fn shows_passthrough(layer: Option<FrameLayer>) -> bool {
    layer matches Some(FrameLayer::App(l)) && l.ty == PASSTHROUGH_LAYER
}

/// A layer of the application, as part of a frame for the runtime.
pub open spec fn untouched(layer: Option<Layer>) -> Option<FrameLayer> {
    match layer {
        Some(l) => Some(FrameLayer::App(l)),
        None => None,
    }
}

/// How many passthrough layers there are.
pub open spec fn passthrough_count(layers: Seq<Option<Layer>>) -> nat
    decreases layers.len(),
{
    if layers.len() == 0 {
        0
    } else {
        passthrough_count(layers.drop_last()) + (if is_passthrough(layers.last()) {
            1nat
        } else {
            0nat
        })
    }
}

/// The place of the first passthrough layer, or the number of layers where
/// there is none.
pub open spec fn passthrough_place(layers: Seq<Option<Layer>>) -> nat
    decreases layers.len(),
{
    if layers.len() == 0 || is_passthrough(layers[0]) {
        0
    } else {
        1 + passthrough_place(layers.skip(1))
    }
}

/// The layers that are no passthrough layers, in their order.
pub open spec fn without_passthrough(layers: Seq<Option<Layer>>) -> Seq<Option<Layer>> {
    layers.filter(|l: Option<Layer>| !is_passthrough(l))
}

/// The application's own frame, unchanged.
pub open spec fn plain_frame(info: FrameEndInfoView) -> FrameView {
    FrameView {
        display_time: info.display_time,
        environment_blend_mode: info.environment_blend_mode,
        layer_count: info.layers.len() as u32,
        layers: info.layers.map_values(|l: Option<Layer>| untouched(l)),
    }
}

/// The application's frame without its passthrough layers, opaque.
pub open spec fn stripped_frame(info: FrameEndInfoView) -> FrameView {
    let kept = without_passthrough(info.layers);
    FrameView {
        display_time: info.display_time,
        environment_blend_mode: OPAQUE,
        layer_count: kept.len() as u32,
        layers: kept.map_values(|l: Option<Layer>| untouched(l)),
    }
}

/// The application's frame with the camera in it, and never alpha-blended. The
/// camera takes the place of the passthrough layer; where there is none it goes
/// in front of everything, and there is one layer more.
pub open spec fn camera_frame(info: FrameEndInfoView, camera: CameraLayer) -> FrameView {
    let layers = info.layers.map_values(|l: Option<Layer>| untouched(l));
    let place = passthrough_place(info.layers);
    FrameView {
        display_time: info.display_time,
        environment_blend_mode: if info.environment_blend_mode == ALPHA_BLEND {
            OPAQUE
        } else {
            info.environment_blend_mode
        },
        layer_count: if place < info.layers.len() {
            info.layers.len() as u32
        } else {
            (info.layers.len() + 1) as u32
        },
        layers: if place < info.layers.len() {
            layers.update(place as int, Some(FrameLayer::Camera(camera)))
        } else {
            seq![Some(FrameLayer::Camera(camera))] + layers
        },
    }
}

/// Whether the number of layers fits where the runtime reads it, also if the
/// camera is one layer more.
pub open spec fn fits_runtime(info: FrameEndInfoView) -> bool {
    &&& info.layers.len() <= u32::MAX
    &&& info.environment_blend_mode == ALPHA_BLEND ==> has_room_for_camera(info)
}

/// Whether the number of layers still fits with the camera among them.
pub open spec fn has_room_for_camera(info: FrameEndInfoView) -> bool {
    passthrough_place(info.layers) < info.layers.len() || info.layers.len() < u32::MAX
}

/// The camera layer for eyes that are each `size` pixels large: the left and
/// the right half of an image twice as wide, as the first and the second of the
/// located views see them.
pub open spec fn camera_layer_for(size: UVec2) -> CameraLayer {
    CameraLayer {
        blend_texture_source_alpha: true,
        left: CameraView {
            view: 0,
            rect: Rect { x: 0, y: 0, width: size.x as i32, height: size.y as i32 },
        },
        right: CameraView {
            view: 1,
            rect: Rect { x: size.x as i32, y: 0, width: size.x as i32, height: size.y as i32 },
        },
    }
}

/// The camera layer for eyes that are each `size` pixels large.
pub fn camera_layer(size: UVec2) -> (layer: CameraLayer)
    ensures
        layer == camera_layer_for(size),
{
    CameraLayer {
        blend_texture_source_alpha: true,
        left: CameraView {
            view: 0,
            rect: Rect { x: 0, y: 0, width: size.x as i32, height: size.y as i32 },
        },
        right: CameraView {
            view: 1,
            rect: Rect { x: size.x as i32, y: 0, width: size.x as i32, height: size.y as i32 },
        },
    }
}

/// Whether `layer` is a passthrough layer.
pub fn holds_passthrough(layer: &Option<Layer>) -> (yes: bool)
    ensures
        yes == is_passthrough(*layer),
{
    match layer {
        Some(l) => l.ty == PASSTHROUGH_LAYER,
        None => false,
    }
}

fn keep_layer(layer: &Option<Layer>) -> (kept: Option<FrameLayer>)
    ensures
        kept == untouched(*layer),
{
    match layer {
        Some(l) => Some(FrameLayer::App(*l)),
        None => None,
    }
}

impl FrameEndInfo {
    /// How many passthrough layers the frame has.
    pub fn count_passthrough(&self) -> (count: usize)
        ensures
            count == passthrough_count(self@.layers),
            count <= self@.layers.len(),
    {
        let mut count: usize = 0;
        let mut i: usize = 0;
        while i < self.layers.len()
            invariant
                i <= self.layers@.len(),
                count <= i,
                count == passthrough_count(self.layers@.take(i as int)),
            decreases self.layers.len() - i,
        {
            assert(self.layers@.take(i + 1).drop_last() =~= self.layers@.take(i as int));
            assert(self.layers@.take(i + 1).last() == self.layers@[i as int]);
            if holds_passthrough(&self.layers[i]) {
                count += 1;
            }
            i += 1;
        }
        assert(self.layers@.take(i as int) =~= self.layers@);
        count
    }

    /// The place of the first passthrough layer, or the number of layers where
    /// there is none.
    pub fn find_passthrough(&self) -> (place: usize)
        ensures
            place == passthrough_place(self@.layers),
            place <= self@.layers.len(),
            place < self@.layers.len() ==> is_passthrough(self@.layers[place as int]),
            forall|j: int| 0 <= j < place ==> !is_passthrough(#[trigger] self@.layers[j]),
    {
        let mut i: usize = 0;
        assert(self.layers@.skip(0) =~= self.layers@);
        while i < self.layers.len()
            invariant
                i <= self.layers@.len(),
                passthrough_place(self.layers@) == i + passthrough_place(
                    self.layers@.skip(i as int),
                ),
                forall|j: int| 0 <= j < i ==> !is_passthrough(#[trigger] self.layers@[j]),
            decreases self.layers.len() - i,
        {
            assert(self.layers@.skip(i as int)[0] == self.layers@[i as int]);
            if holds_passthrough(&self.layers[i]) {
                return i;
            }
            assert(self.layers@.skip(i as int).skip(1) =~= self.layers@.skip(i + 1));
            i += 1;
        }
        i
    }

    fn own_layers(&self) -> (layers: Vec<Option<FrameLayer>>)
        ensures
            layers@ == self@.layers.map_values(|l: Option<Layer>| untouched(l)),
    {
        let mut layers: Vec<Option<FrameLayer>> = Vec::new();
        let mut i: usize = 0;
        while i < self.layers.len()
            invariant
                i <= self.layers@.len(),
                layers@.len() == i,
                forall|j: int| 0 <= j < i ==> layers@[j] == untouched(self.layers@[j]),
            decreases self.layers.len() - i,
        {
            layers.push(keep_layer(&self.layers[i]));
            i += 1;
        }
        assert(layers@ =~= self@.layers.map_values(|l: Option<Layer>| untouched(l)));
        layers
    }

    /// The frame as it is, for the runtime.
    pub fn plain(&self) -> (frame: Frame)
        requires
            self@.layers.len() <= u32::MAX,
        ensures
            frame@ == plain_frame(self@),
    {
        Frame {
            display_time: self.display_time,
            environment_blend_mode: self.environment_blend_mode,
            layer_count: self.layers.len() as u32,
            layers: self.own_layers(),
        }
    }

    /// The frame without its passthrough layers, for the runtime.
    pub fn stripped(&self) -> (frame: Frame)
        requires
            self@.layers.len() <= u32::MAX,
        ensures
            frame@ == stripped_frame(self@),
    {
        let mut layers: Vec<Option<FrameLayer>> = Vec::new();
        let mut i: usize = 0;
        let ghost kept = |l: Option<Layer>| !is_passthrough(l);
        proof {
            reveal(Seq::filter);
            assert(self.layers@.take(0).filter(kept) =~= Seq::empty());
        }
        while i < self.layers.len()
            invariant
                i <= self.layers@.len(),
                kept == (|l: Option<Layer>| !is_passthrough(l)),
                layers@.len() <= i,
                layers@ == self.layers@.take(i as int).filter(kept).map_values(
                    |l: Option<Layer>| untouched(l),
                ),
            decreases self.layers.len() - i,
        {
            let ghost before = self.layers@.take(i as int).filter(kept);
            proof {
                reveal(Seq::filter);
                assert(self.layers@.take(i + 1).drop_last() =~= self.layers@.take(i as int));
                assert(self.layers@.take(i + 1).last() == self.layers@[i as int]);
            }
            if !holds_passthrough(&self.layers[i]) {
                layers.push(keep_layer(&self.layers[i]));
                assert(self.layers@.take(i + 1).filter(kept) == before.push(self.layers@[i as int]));
            }
            i += 1;
            assert(layers@ =~= self.layers@.take(i as int).filter(kept).map_values(
                |l: Option<Layer>| untouched(l),
            ));
        }
        assert(self.layers@.take(i as int) =~= self.layers@);
        Frame {
            display_time: self.display_time,
            environment_blend_mode: OPAQUE,
            layer_count: layers.len() as u32,
            layers,
        }
    }

    /// The frame with the camera in it, for the runtime.
    pub fn with_camera(&self, camera: CameraLayer) -> (frame: Frame)
        requires
            self@.layers.len() <= u32::MAX,
            has_room_for_camera(self@),
        ensures
            frame@ == camera_frame(self@, camera),
    {
        let place = self.find_passthrough();
        let mut layers = self.own_layers();
        if place < layers.len() {
            layers.set(place, Some(FrameLayer::Camera(camera)));
        } else {
            let ghost own = layers@;
            layers.insert(0, Some(FrameLayer::Camera(camera)));
            assert(layers@ =~= seq![Some(FrameLayer::Camera(camera))] + own);
        }
        let layer_count: u32 = layers.len() as u32;
        Frame {
            display_time: self.display_time,
            environment_blend_mode: if self.environment_blend_mode == ALPHA_BLEND {
                OPAQUE
            } else {
                self.environment_blend_mode
            },
            layer_count,
            layers,
        }
    }
}

} // verus!
