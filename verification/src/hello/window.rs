//! The window on the desktop, and what each of its images is drawn with.
use crate::api_layer::session::max_u32;
use crate::vulkan::{select_format, Format, ImagePlan, ImageUsage, UVec2};
use vstd::prelude::*;

verus! {

use crate::api_layer::session::{larger, target_usage};
use crate::setup::depth_usage;
use crate::vulkan::first_supported;

/// Both eyes are drawn at once.
pub const VIEW_MASK: u32 = 3;

/// How many vertices the cube has.
pub const CUBE_VERTICES: u32 = 8;

/// The cube's triangles, two for each side, by their vertices.
pub const INDICES: [u32; 36] = [
    0, 1, 3, 1, 3, 5,  // back
    3, 5, 6, 5, 6, 7,  // top
    6, 7, 2, 7, 2, 4,  // front
    2, 4, 1, 2, 1, 0,  // bottom
    1, 4, 5, 4, 5, 7,  // right
    0, 2, 3, 2, 3, 6,  // left
];

/// Every triangle is made of vertices that the cube has.
pub proof fn triangles_use_the_cubes_vertices(i: int)
    requires
        0 <= i < 36,
    ensures
        INDICES@[i] < CUBE_VERTICES,
{
}

/// The formats that the window's images can have, the best one first.
pub open spec fn preferred_window_formats() -> Seq<Format> {
    seq![Format::B8G8R8Unorm, Format::R8G8B8Unorm, Format::B8G8R8A8Unorm, Format::R8G8B8A8Unorm]
}

/// The images of a window.
#[derive(Debug, Eq, PartialEq, Clone, Copy, Structural)]
pub struct WindowPlan {
    pub min_image_count: u32,
    pub format: Format,
    pub extent: UVec2,
    pub usage: ImageUsage,
}

/// The images to create for a window, if its surface supports a format that will do.
pub open spec fn window_plan_for(
    formats: Seq<u32>,
    min_image_count: u32,
    extent: UVec2,
) -> Option<WindowPlan> {
    match first_supported(preferred_window_formats(), formats) {
        Some(format) => Some(
            WindowPlan {
                min_image_count: larger(min_image_count, 2),
                format,
                extent,
                usage: target_usage(),
            },
        ),
        None => None,
    }
}

/// A window's images are at least two, and as many as its surface asks for. They are
/// as large as the window, can be drawn to and copied to, and have the first format of
/// the numbers 30, 23, 44 and 37 that the surface supports.
pub proof fn window_formats_go_by_number(formats: Seq<u32>, min_image_count: u32, extent: UVec2)
    ensures
        ({
            let plan = window_plan_for(formats, min_image_count, extent);
            let offers = |code: u32| formats.contains(code);
            &&& plan is Some <==> offers(30) || offers(23) || offers(44) || offers(37)
            &&& plan matches Some(plan) ==> {
                &&& plan.min_image_count >= 2 && plan.min_image_count >= min_image_count
                &&& plan.min_image_count == 2 || plan.min_image_count == min_image_count
                &&& plan.extent == extent
                &&& plan.usage.color_attachment && plan.usage.transfer_dst
                &&& !plan.usage.transfer_src && !plan.usage.sampled
                    && !plan.usage.depth_stencil_attachment
                &&& plan.format == Format::B8G8R8Unorm <==> offers(30)
                &&& plan.format == Format::R8G8B8Unorm <==> !offers(30) && offers(23)
                &&& plan.format == Format::B8G8R8A8Unorm <==> !offers(30) && !offers(23) && offers(
                    44,
                )
                &&& plan.format == Format::R8G8B8A8Unorm <==> !offers(30) && !offers(23)
                    && !offers(44)
            }
        }),
{
    reveal_with_fuel(first_supported, 6);
}

/// The images to create for a window: at least two, in the best format that its
/// surface supports, or none if there is no such format.
pub fn setup_window(formats: &[u32], min_image_count: u32, extent: UVec2) -> (plan: Option<
    WindowPlan,
>)
    ensures
        plan == window_plan_for(formats@, min_image_count, extent),
{
    let preferred: [Format; 4] = [
        Format::B8G8R8Unorm,
        Format::R8G8B8Unorm,
        Format::B8G8R8A8Unorm,
        Format::R8G8B8A8Unorm,
    ];
    assert(preferred@ =~= preferred_window_formats());
    let mut usage = ImageUsage::none();
    usage.color_attachment = true;
    usage.transfer_dst = true;
    match select_format(preferred.as_slice(), formats) {
        Some(format) => Some(
            WindowPlan { min_image_count: max_u32(min_image_count, 2), format, extent, usage },
        ),
        None => None,
    }
}

impl WindowPlan {
    /// An image of the window.
    pub fn image(&self) -> (image: ImagePlan)
        ensures
            image == (ImagePlan {
                format: self.format,
                width: self.extent.x,
                height: self.extent.y,
                array_layers: 1,
                usage: self.usage,
            }),
    {
        ImagePlan {
            format: self.format,
            width: self.extent.x,
            height: self.extent.y,
            array_layers: 1,
            usage: self.usage,
        }
    }
}

/// A depth image for drawing into images like `color`.
pub open spec fn depth_image_for(color: ImagePlan) -> ImagePlan {
    ImagePlan { format: Format::D32Sfloat, usage: depth_usage(), ..color }
}

/// The depth image for drawing into images like `color`: as large, for as many
/// eyes.
pub fn depth_image(color: ImagePlan) -> (depth: ImagePlan)
    ensures
        depth == depth_image_for(color),
{
    let mut usage = ImageUsage::none();
    usage.depth_stencil_attachment = true;
    ImagePlan {
        format: Format::D32Sfloat,
        width: color.width,
        height: color.height,
        array_layers: color.array_layers,
        usage,
    }
}

/// Where the depth image that goes with an image comes from.
#[derive(Debug, Eq, PartialEq, Clone, Copy, Structural)]
pub enum DepthSource {
    /// The swapchain for depth, at this place.
    Swapchain(usize),
    /// One depth image for all of them.
    Shared,
}

/// Where the depth image that goes with each image comes from.
pub open spec fn depth_sources_for(images: nat, has_depth_swapchain: bool) -> Seq<DepthSource> {
    Seq::new(
        images,
        |i: int|
            if has_depth_swapchain {
                DepthSource::Swapchain(i as usize)
            } else {
                DepthSource::Shared
            },
    )
}

/// Each image has the depth image of its own number where there is a swapchain for
/// depth; otherwise all of them share one.
pub proof fn depth_images_have_their_images_numbers(images: nat, i: int)
    requires
        0 <= i < images <= usize::MAX,
    ensures
        depth_sources_for(images, true).len() == images,
        depth_sources_for(images, true)[i] matches DepthSource::Swapchain(place) && place == i,
        depth_sources_for(images, false).len() == images,
        depth_sources_for(images, false)[i] == DepthSource::Shared,
{
}

/// The depth image that goes with each of the images of the headset's swapchain:
/// the one at the same place if there is a swapchain for depth, which has as
/// many, or one for all.
pub fn depth_sources(images: usize, depth_images: Option<usize>) -> (sources: Vec<DepthSource>)
    requires
        depth_images matches Some(n) ==> n == images,
    ensures
        sources@ == depth_sources_for(images as nat, depth_images is Some),
{
    let mut sources: Vec<DepthSource> = Vec::new();
    let mut i: usize = 0;
    while i < images
        invariant
            i <= images,
            sources@ == depth_sources_for(i as nat, depth_images is Some),
        decreases images - i,
    {
        let source = if depth_images.is_some() {
            DepthSource::Swapchain(i)
        } else {
            DepthSource::Shared
        };
        sources.push(source);
        i += 1;
        assert(sources@ =~= depth_sources_for(i as nat, depth_images is Some));
    }
    sources
}

/// What one command buffer draws: the image at a place, with the uniform buffer at
/// a place.
#[derive(Debug, Eq, PartialEq, Clone, Copy, Structural)]
pub struct CommandPlan {
    pub image: usize,
    pub uniform_buffer: usize,
}

/// The command buffers for a number of images: one for each, with the uniform
/// buffer at the same place.
pub open spec fn command_plans_for(images: nat) -> Seq<CommandPlan> {
    Seq::new(images, |i: int| CommandPlan { image: i as usize, uniform_buffer: i as usize })
}

/// The command buffers for a number of images.
pub fn command_plans(images: usize) -> (plans: Vec<CommandPlan>)
    ensures
        plans@ == command_plans_for(images as nat),
{
    let mut plans: Vec<CommandPlan> = Vec::new();
    let mut i: usize = 0;
    while i < images
        invariant
            i <= images,
            plans@ == command_plans_for(i as nat),
        decreases images - i,
    {
        plans.push(CommandPlan { image: i, uniform_buffer: i });
        i += 1;
        assert(plans@ =~= command_plans_for(i as nat));
    }
    plans
}

/// Why there are no commands for other images.
#[derive(Debug, Eq, PartialEq, Clone, Copy, Structural)]
pub enum RecreateError {
    /// Not all uniform buffers could be made.
    UniformBuffers,
    /// Something else that drawing takes could not be made.
    Commands,
}

/// How many uniform buffers lack for a number of images.
pub open spec fn lacking(uniform_buffers: nat, images: nat) -> nat {
    if uniform_buffers < images {
        (images - uniform_buffers) as nat
    } else {
        0
    }
}

/// The smaller one of two numbers.
pub open spec fn smaller(a: nat, b: nat) -> nat {
    if a < b {
        a
    } else {
        b
    }
}

/// What comes of turning to other images: how many uniform buffers are added, and
/// whether there are commands for the images.
pub open spec fn recreate_outcome(
    uniform_buffers: nat,
    images: nat,
    made: nat,
    recorded: bool,
) -> (nat, Result<(), RecreateError>) {
    let missing = lacking(uniform_buffers, images);
    let kept = smaller(made, missing);
    (
        kept,
        if kept < missing {
            Err(RecreateError::UniformBuffers)
        } else if !recorded {
            Err(RecreateError::Commands)
        } else {
            Ok(())
        },
    )
}

/// Uniform buffers that were made are added, but no more than one for each image.
/// There are commands exactly where there is a buffer for each image and nothing else
/// failed, and it is said which of the two failed first.
pub proof fn images_have_commands_where_nothing_failed(
    uniform_buffers: nat,
    images: nat,
    made: nat,
    recorded: bool,
)
    ensures
        ({
            let (added, result) = recreate_outcome(uniform_buffers, images, made, recorded);
            let enough = uniform_buffers + made >= images;
            &&& added <= made
            &&& added > 0 ==> uniform_buffers + added <= images
            &&& added < made ==> uniform_buffers + added >= images
            &&& result is Ok <==> enough && recorded
            &&& result == Err::<(), RecreateError>(RecreateError::UniformBuffers) <==> !enough
            &&& result is Ok ==> uniform_buffers + added >= images
        }),
{
}

/// What the window's images are drawn with. `F` tells when the graphics processor
/// is done.
#[derive(Debug)]
pub struct WindowBuffers<F> {
    /// How many uniform buffers there are.
    pub uniform_buffers: usize,
    /// For each uniform buffer, the end of its last use.
    pub uses: Vec<Option<F>>,
    /// What each command buffer draws.
    pub command_buffers: Vec<CommandPlan>,
}

impl<F> WindowBuffers<F> {
    /// The lists go together: each uniform buffer has its use noted, and each
    /// image that there are commands for has a uniform buffer of its own.
    pub open spec fn valid(self) -> bool {
        &&& self.uses@.len() == self.uniform_buffers
        &&& self.command_buffers@.len() <= self.uniform_buffers
        &&& self.command_buffers@ == command_plans_for(self.command_buffers@.len())
    }

    pub fn new() -> (buffers: Self)
        ensures
            buffers.valid(),
            buffers.uniform_buffers == 0,
            buffers.uses@.len() == 0,
            buffers.command_buffers@.len() == 0,
    {
        let buffers = WindowBuffers {
            uniform_buffers: 0,
            uses: Vec::new(),
            command_buffers: Vec::new(),
        };
        assert(buffers.command_buffers@ =~= command_plans_for(0));
        buffers
    }

    /// How many uniform buffers have to be made for drawing into other images.
    pub fn missing(&self, images: usize) -> (count: usize)
        ensures
            count == lacking(self.uniform_buffers as nat, images as nat),
    {
        if self.uniform_buffers < images {
            images - self.uniform_buffers
        } else {
            0
        }
    }

    /// Turns to other images. `made` says how many of the missing uniform buffers
    /// could be made, and `recorded` whether everything else could. Uniform
    /// buffers that were made are kept in any case, with no use noted, and none is
    /// ever given up; the commands change only if nothing failed.
    pub fn recreate(&mut self, images: usize, made: usize, recorded: bool) -> (result: Result<
        (),
        RecreateError,
    >)
        requires
            old(self).valid(),
        ensures
            final(self).valid(),
            ({
                let (added, result_for) = recreate_outcome(
                    old(self).uniform_buffers as nat,
                    images as nat,
                    made as nat,
                    recorded,
                );
                &&& result == result_for
                &&& final(self).uniform_buffers == old(self).uniform_buffers + added
                &&& final(self).uses@ == old(self).uses@ + Seq::new(added, |i: int| None::<F>)
                &&& final(self).command_buffers@ == (if result is Ok {
                    command_plans_for(images as nat)
                } else {
                    old(self).command_buffers@
                })
            }),
    {
        let missing: usize = self.missing(images);
        let kept: usize = if made < missing {
            made
        } else {
            missing
        };
        let mut added: usize = 0;
        let ghost before = *self;
        while added < kept
            invariant
                added <= kept,
                self.uses@ == before.uses@ + Seq::new(added as nat, |i: int| None::<F>),
                self.uniform_buffers == before.uniform_buffers,
                self.command_buffers == before.command_buffers,
            decreases kept - added,
        {
            self.uses.push(None);
            added += 1;
            assert(self.uses@ =~= before.uses@ + Seq::new(added as nat, |i: int| None::<F>));
        }
        self.uniform_buffers = self.uniform_buffers + kept;
        if kept < missing {
            return Err(RecreateError::UniformBuffers);
        }
        if !recorded {
            return Err(RecreateError::Commands);
        }
        self.command_buffers = command_plans(images);
        Ok(())
    }

    /// The last use of the uniform buffer of the image at `index`, which has to
    /// be over before it is written.
    pub fn take_last_use(&mut self, index: usize) -> (last: Option<F>)
        requires
            old(self).valid(),
            index < old(self).command_buffers@.len(),
        ensures
            last == old(self).uses@[index as int],
            final(self).uses@ == old(self).uses@.update(index as int, None),
            final(self).uniform_buffers == old(self).uniform_buffers,
            final(self).command_buffers@ == old(self).command_buffers@,
            final(self).valid(),
    {
        let mut last: Option<F> = None;
        std::mem::swap(&mut self.uses[index], &mut last);
        last
    }

    /// Notes the use of the uniform buffer of the image at `index`.
    pub fn put_use(&mut self, index: usize, end: F)
        requires
            old(self).valid(),
            index < old(self).command_buffers@.len(),
        ensures
            final(self).uses@ == old(self).uses@.update(index as int, Some(end)),
            final(self).uniform_buffers == old(self).uniform_buffers,
            final(self).command_buffers@ == old(self).command_buffers@,
            final(self).valid(),
    {
        self.uses[index] = Some(end);
    }
}

/// How asking the window for its next image went.
#[derive(Debug, Eq, PartialEq, Clone, Copy, Structural)]
pub enum AcquireOutcome {
    /// There is an image, at this place.
    Image(u32),
    /// There is an image, but it does not suit the window any more.
    Suboptimal,
    /// The images cannot be used any more.
    OutOfDate,
    /// No image is free in time.
    Timeout,
    /// No image is free.
    NotReady,
    Failed,
}

/// What follows when the window was asked for its next image.
#[derive(Debug, Eq, PartialEq, Clone, Copy, Structural)]
pub enum RedrawStep {
    Draw(u32),
    /// Make new images, wait for the unsuitable one before drawing if asked to,
    /// and ask again.
    Recreate { await_image: bool },
    /// Draw nothing this time.
    Skip,
    Fail,
}

/// What follows when the window was asked for its next image.
pub open spec fn redraw_step_for(outcome: AcquireOutcome) -> RedrawStep {
    match outcome {
        AcquireOutcome::Image(index) => RedrawStep::Draw(index),
        AcquireOutcome::Suboptimal => RedrawStep::Recreate { await_image: true },
        AcquireOutcome::OutOfDate => RedrawStep::Recreate { await_image: false },
        AcquireOutcome::Timeout => RedrawStep::Skip,
        AcquireOutcome::NotReady => RedrawStep::Skip,
        AcquireOutcome::Failed => RedrawStep::Fail,
    }
}

/// What follows when the window was asked for its next image.
pub fn redraw_step(outcome: AcquireOutcome) -> (step: RedrawStep)
    ensures
        step == redraw_step_for(outcome),
{
    match outcome {
        AcquireOutcome::Image(index) => RedrawStep::Draw(index),
        AcquireOutcome::Suboptimal => RedrawStep::Recreate { await_image: true },
        AcquireOutcome::OutOfDate => RedrawStep::Recreate { await_image: false },
        AcquireOutcome::Timeout => RedrawStep::Skip,
        AcquireOutcome::NotReady => RedrawStep::Skip,
        AcquireOutcome::Failed => RedrawStep::Fail,
    }
}

/// An image that suits the window is drawn to. One that does not, or cannot be used,
/// is replaced, and is waited for exactly where there is one. Where no image is free
/// nothing is drawn, and every other failure is one.
pub proof fn window_is_drawn_where_an_image_suits(outcome: AcquireOutcome)
    ensures
        outcome matches AcquireOutcome::Image(index) ==> redraw_step_for(outcome)
            == RedrawStep::Draw(index),
        redraw_step_for(outcome) is Draw <==> outcome is Image,
        redraw_step_for(outcome) == (RedrawStep::Recreate { await_image: true })
            <==> outcome is Suboptimal,
        redraw_step_for(outcome) == (RedrawStep::Recreate { await_image: false })
            <==> outcome is OutOfDate,
        redraw_step_for(outcome) is Skip <==> outcome is Timeout || outcome is NotReady,
        redraw_step_for(outcome) is Fail <==> outcome is Failed,
{
}

/// The uniform buffers that lack are those that it takes to have one for each image,
/// and none lack where there are enough.
pub proof fn missing_buffers_make_up_the_number(uniform_buffers: nat, images: nat)
    ensures
        uniform_buffers + lacking(uniform_buffers, images) >= images,
        uniform_buffers >= images <==> lacking(uniform_buffers, images) == 0,
        uniform_buffers < images ==> uniform_buffers + lacking(uniform_buffers, images) == images,
        smaller(uniform_buffers, images) <= uniform_buffers,
        smaller(uniform_buffers, images) <= images,
        smaller(uniform_buffers, images) == uniform_buffers || smaller(uniform_buffers, images)
            == images,
{
}

/// Each image has commands of its own, which draw to it with the uniform buffer of its
/// own number.
pub proof fn each_image_is_drawn_with_its_own_buffer(images: nat, i: int)
    requires
        0 <= i < images <= usize::MAX,
    ensures
        command_plans_for(images).len() == images,
        command_plans_for(images)[i].image == i,
        command_plans_for(images)[i].uniform_buffer == i,
{
}

/// A depth image is as large as the image that it goes with, for as many eyes, in a
/// format with 32 bits of depth, and used for depth only.
pub proof fn depth_images_go_with_their_images(color: ImagePlan)
    ensures
        ({
            let depth = depth_image_for(color);
            &&& depth.width == color.width && depth.height == color.height
            &&& depth.array_layers == color.array_layers
            &&& depth.format == Format::D32Sfloat
            &&& depth.usage.depth_stencil_attachment
            &&& !depth.usage.color_attachment && !depth.usage.sampled
                && !depth.usage.transfer_src && !depth.usage.transfer_dst
        }),
{
}

} // verus!
