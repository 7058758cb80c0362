//! What holds of the layer as a whole.
use crate::api_layer::end_frame::{EndFrameReplies, LocatedViews};
use crate::api_layer::entry::{BeginFrameReplies, SessionCall};
use crate::api_layer::frame::{CameraLayer, FrameLayer, Layer, ALPHA_BLEND};
use crate::api_layer::session::{BeginAction, BeginReplies, BeginStage, SessionState, ViewConfig};
use crate::pipeline::SamplerSupport;
use crate::vulkan::{Format, UVec2};
use crate::xr::{
    XrErr, ERROR_RUNTIME_FAILURE, ERROR_SESSION_NOT_RUNNING, ERROR_SESSION_RUNNING,
    ERROR_VALIDATION_FAILURE, SUCCESS,
};
use vstd::prelude::*;

verus! {

use crate::api_layer::camera::camera_request_for;
use crate::api_layer::end_frame::{
    end_frame_first, end_frame_located, end_frame_resolved, end_frame_result, image_at_hand,
    lemma_passthrough_place, EndFrameActionView,
};
use crate::api_layer::entry::{
    begin_frame_result, begin_session_call, begin_session_result, end_session_call,
    end_session_result,
};
use crate::api_layer::frame::{
    camera_frame, camera_layer_for, is_passthrough, passthrough_count, passthrough_place,
    plain_frame, shows_passthrough, stripped_frame, untouched, without_passthrough,
    FrameEndInfoView, FrameView,
};
use crate::api_layer::session::{
    attach_result, begin_after_camera, begin_after_formats, begin_after_swapchain,
    begin_after_views, begin_result, camera_swapchain, camera_swapchain_image,
    color_format_goes_by_number, views_of,
};
use crate::pipeline::output_image_for;
use crate::vulkan::formats_are_known;

/// Where a passthrough layer is found there is at least one to count.
proof fn lemma_counted(layers: Seq<Option<Layer>>, i: int)
    requires
        0 <= i < layers.len(),
        is_passthrough(layers[i]),
    ensures
        passthrough_count(layers) >= 1,
    decreases layers.len(),
{
    if i < layers.len() - 1 {
        lemma_counted(layers.drop_last(), i);
    }
}

/// Two places that hold passthrough layers make a count of two.
proof fn lemma_counted_twice(layers: Seq<Option<Layer>>, i: int, j: int)
    requires
        0 <= i < j < layers.len(),
        is_passthrough(layers[i]),
        is_passthrough(layers[j]),
    ensures
        passthrough_count(layers) >= 2,
    decreases layers.len(),
{
    if j < layers.len() - 1 {
        lemma_counted_twice(layers.drop_last(), i, j);
    } else {
        lemma_counted(layers.drop_last(), i);
    }
}

proof fn lemma_stripped(layers: Seq<Option<Layer>>)
    ensures
        without_passthrough(layers).len() <= layers.len(),
        forall|i: int|
            0 <= i < without_passthrough(layers).len() ==> !is_passthrough(
                #[trigger] without_passthrough(layers)[i],
            ) && layers.contains(without_passthrough(layers)[i]),
    decreases layers.len(),
{
    reveal(Seq::filter);
    if layers.len() > 0 {
        let rest = layers.drop_last();
        lemma_stripped(rest);
        let kept = without_passthrough(layers);
        assert forall|i: int| 0 <= i < kept.len() implies !is_passthrough(#[trigger] kept[i])
            && layers.contains(kept[i]) by {
            if i < without_passthrough(rest).len() {
                let k = choose|k: int| 0 <= k < rest.len() && rest[k] == kept[i];
                assert(layers[k] == kept[i]);
            } else {
                assert(layers[layers.len() - 1] == kept[i]);
            }
        }
    }
}

/// A session that the layer wraps never submits a passthrough layer to the
/// runtime, and never asks it to blend with the surroundings by alpha: both are
/// replaced by the camera, or left out.
pub proof fn wrapped_frames_need_no_passthrough(
    state: SessionState,
    info: FrameEndInfoView,
    fresh: u64,
    replies: EndFrameReplies,
)
    ensures
        end_frame_result(Some(state), info, fresh, replies).1 matches Ok(frame) ==> {
            &&& frame.environment_blend_mode != ALPHA_BLEND
            &&& forall|i: int|
                0 <= i < frame.layers.len() ==> !shows_passthrough(#[trigger] frame.layers[i])
        },
{
    if let Ok(frame) = end_frame_result(Some(state), info, fresh, replies).1 {
        lemma_passthrough_place(info.layers);
        lemma_stripped(info.layers);
        let own = info.layers.map_values(|l: Option<Layer>| untouched(l));
        let place = passthrough_place(info.layers) as int;
        assert forall|i: int| 0 <= i < frame.layers.len() implies !shows_passthrough(
            #[trigger] frame.layers[i],
        ) by {
            if frame == stripped_frame(info) {
                assert(!is_passthrough(without_passthrough(info.layers)[i]));
                assert(frame.layers[i] == untouched(without_passthrough(info.layers)[i]));
            } else if passthrough_count(info.layers) == 0 {
                assert forall|k: int| 0 <= k < info.layers.len() implies !is_passthrough(
                    #[trigger] info.layers[k],
                ) by {
                    if is_passthrough(info.layers[k]) {
                        lemma_counted(info.layers, k);
                    }
                }
                if frame.layers.len() == info.layers.len() {
                    assert(frame.layers[i] == untouched(info.layers[i]));
                } else if i > 0 {
                    assert(frame.layers[i] == own[i - 1]);
                    assert(!is_passthrough(info.layers[i - 1]));
                }
            } else if i != place {
                assert(frame.layers[i] == untouched(info.layers[i]));
                if is_passthrough(info.layers[i]) {
                    if i < place {
                        lemma_counted_twice(info.layers, i, place);
                    } else {
                        lemma_counted_twice(info.layers, place, i);
                    }
                }
            }
        }
    }
}

/// A session that the layer does not wrap is left alone: its frames reach the
/// runtime as they are, and its calls change nothing.
pub proof fn other_sessions_are_left_alone(
    info: FrameEndInfoView,
    fresh: u64,
    replies: EndFrameReplies,
    begin: BeginFrameReplies,
)
    ensures
        end_frame_result(None, info, fresh, replies) == (None::<SessionState>, Ok::<
            FrameView,
            XrErr,
        >(plain_frame(info))),
        begin_frame_result(None, begin) == (None::<SessionState>, begin.begun),
{
}

/// Where the application submits a passthrough layer, the camera takes exactly
/// its place: every other layer, their number and the time stay.
pub proof fn camera_takes_the_place_of_the_passthrough_layer(
    info: FrameEndInfoView,
    camera: CameraLayer,
)
    requires
        info.layers.len() <= u32::MAX,
        passthrough_count(info.layers) == 1,
    ensures
        ({
            let frame = camera_frame(info, camera);
            &&& frame.display_time == info.display_time
            &&& frame.layers.len() == info.layers.len()
            &&& frame.seen_layers() == frame.layers
            &&& forall|i: int|
                0 <= i < info.layers.len() ==> #[trigger] frame.layers[i] == (if is_passthrough(
                    info.layers[i],
                ) {
                    Some(FrameLayer::Camera(camera))
                } else {
                    untouched(info.layers[i])
                })
        }),
{
    lemma_passthrough_place(info.layers);
    let frame = camera_frame(info, camera);
    let place = passthrough_place(info.layers) as int;
    assert(frame.seen_layers() =~= frame.layers);
    assert forall|i: int| 0 <= i < info.layers.len() implies #[trigger] frame.layers[i] == (
    if is_passthrough(info.layers[i]) {
        Some(FrameLayer::Camera(camera))
    } else {
        untouched(info.layers[i])
    }) by {
        if i != place && is_passthrough(info.layers[i]) {
            if i < place {
                lemma_counted_twice(info.layers, i, place);
            } else {
                lemma_counted_twice(info.layers, place, i);
            }
        }
    }
}

/// Where there is no passthrough layer, the camera goes in front of all of the
/// application's layers, and the runtime sees every one of them.
pub proof fn camera_goes_in_front_of_blended_frames(info: FrameEndInfoView, camera: CameraLayer)
    requires
        info.layers.len() < u32::MAX,
        passthrough_count(info.layers) == 0,
    ensures
        ({
            let frame = camera_frame(info, camera);
            let own = info.layers.map_values(|l: Option<Layer>| untouched(l));
            &&& frame.display_time == info.display_time
            &&& frame.layer_count == info.layers.len() + 1
            &&& frame.seen_layers() == seq![Some(FrameLayer::Camera(camera))] + own
        }),
{
    lemma_passthrough_place(info.layers);
    let frame = camera_frame(info, camera);
    assert(frame.seen_layers() =~= frame.layers);
}

/// A passthrough object that is attached to a session stays attached, whatever
/// happens to the session.
pub proof fn attached_objects_stay(
    state: SessionState,
    id: u64,
    view_type: i32,
    begin: BeginReplies,
    frame_begin: BeginFrameReplies,
    info: FrameEndInfoView,
    fresh: u64,
    replies: EndFrameReplies,
)
    requires
        state.attached() == Some(id),
    ensures
        state.ended().attached() == Some(id),
        begin_result(state, view_type, begin) matches Ok(after) ==> after.attached() == Some(id),
        begin_frame_result(Some(state), frame_begin).0 matches Some(after) && after.attached()
            == Some(id),
        end_frame_result(Some(state), info, fresh, replies).0 matches Some(after)
            && after.attached() == Some(id),
        attach_result(state, fresh, replies.camera) == (state, Ok::<u64, XrErr>(id)),
{
}

/// Asking for the passthrough object a second time gives the same object and
/// changes nothing, whatever number was put forward for a new one and whether
/// or not a camera could be set up.
pub proof fn asking_again_gives_the_same_object(
    state: SessionState,
    fresh: u64,
    camera: Result<(), XrErr>,
    fresh_again: u64,
    camera_again: Result<(), XrErr>,
)
    ensures
        ({
            let (after, result) = attach_result(state, fresh, camera);
            result is Ok ==> attach_result(after, fresh_again, camera_again) == (after, result)
        }),
{
}

/// Ending a session undoes beginning it.
pub proof fn end_undoes_begin(state: SessionState, view_type: i32, replies: BeginReplies)
    requires
        begin_result(state, view_type, replies) is Ok,
    ensures
        state is Idle,
        begin_result(state, view_type, replies)->Ok_0 is Running,
        begin_result(state, view_type, replies)->Ok_0.ended() == state,
{
}

/// A second start of a frame, without an end in between, uses the image that
/// the first one acquired: it changes nothing and asks for no other image.
pub proof fn second_frame_start_keeps_the_image(
    state: SessionState,
    first: BeginFrameReplies,
    second: BeginFrameReplies,
)
    requires
        state is Running,
        begin_frame_result(Some(state), first).1.code == SUCCESS,
        first.acquired matches Err(e) ==> e.code != SUCCESS,
        second.begun.code == SUCCESS,
    ensures
        ({
            let after = begin_frame_result(Some(state), first).0;
            &&& after matches Some(SessionState::Running { image_index: Some(_), .. })
            &&& begin_frame_result(after, second) == (after, second.begun)
        }),
{
}

/// Frames neither begin nor end a session, and do not change what it was begun
/// with. The image at hand is used up by the end of a frame, or kept.
pub proof fn frames_keep_the_session(
    state: SessionState,
    begin: BeginFrameReplies,
    info: FrameEndInfoView,
    fresh: u64,
    replies: EndFrameReplies,
)
    ensures
        begin_frame_result(Some(state), begin).0 matches Some(after) && same_session(state, after),
        end_frame_result(Some(state), info, fresh, replies).0 matches Some(after) && same_session(
            state,
            after,
        ) && (image_at_hand(after) is None || image_at_hand(after) == image_at_hand(state)),
{
}

/// Whether two states are states of a session that was neither begun nor ended
/// in between.
pub open spec fn same_session(a: SessionState, b: SessionState) -> bool {
    match (a, b) {
        (SessionState::Idle { .. }, SessionState::Idle { .. }) => true,
        (
            SessionState::Running { view_type, size, .. },
            SessionState::Running { view_type: v, size: s, .. },
        ) => view_type == v && size == s,
        _ => false,
    }
}

/// A frame whose start was never announced shows no camera: without an image at
/// hand, the passthrough layers are left out and the rest goes to the runtime.
pub proof fn frame_without_start_shows_no_camera(
    state: SessionState,
    info: FrameEndInfoView,
    fresh: u64,
    replies: EndFrameReplies,
    located: LocatedViews,
)
    requires
        state is Running,
        image_at_hand(state) is None,
        state.attached() is Some,
        passthrough_count(info.layers) == 1,
        replies.object == Ok::<u64, XrErr>(state.attached()->Some_0),
        replies.views == Ok::<LocatedViews, XrErr>(located),
    ensures
        end_frame_result(Some(state), info, fresh, replies) == (Some(state), Ok::<
            FrameView,
            XrErr,
        >(stripped_frame(info))),
{
}

/// Finished camera images are as large as the images of the swapchain that they
/// are copied to.
pub proof fn camera_image_fits_the_swapchain(
    sampler: SamplerSupport,
    has_camera_config: bool,
    size: UVec2,
    format: Format,
)
    ensures
        ({
            let finished = output_image_for(camera_request_for(sampler, has_camera_config, size));
            let shown = camera_swapchain_image(size, format);
            &&& finished.width == shown.width
            &&& finished.height == shown.height
            &&& finished.usage.transfer_src && shown.usage.transfer_dst
        }),
{
}

/// A frame that asks to be seen over the surroundings, by its blend mode or by
/// one passthrough layer of the session's own object, shows the camera where an
/// image is at hand, the eyes are located and nothing fails. The image is used
/// up.
pub proof fn camera_is_shown_where_it_is_asked_for(
    state: SessionState,
    info: FrameEndInfoView,
    fresh: u64,
    replies: EndFrameReplies,
    located: LocatedViews,
)
    requires
        image_at_hand(state) is Some,
        state.attached() is Some,
        ({
            ||| passthrough_count(info.layers) == 0 && info.environment_blend_mode == ALPHA_BLEND
            ||| passthrough_count(info.layers) == 1 && replies.object == Ok::<u64, XrErr>(
                state.attached()->Some_0,
            )
        }),
        replies.views == Ok::<LocatedViews, XrErr>(located),
        located.position_valid && located.orientation_valid,
        replies.copied,
        replies.released is Ok,
    ensures
        ({
            let (after, result) = end_frame_result(Some(state), info, fresh, replies);
            &&& state matches SessionState::Running { size, .. } && result == Ok::<FrameView, XrErr>(
                camera_frame(info, camera_layer_for(size)),
            )
            &&& after matches Some(after) && same_session(state, after) && image_at_hand(
                after,
            ) is None
        }),
{
}

/// A frame of a session that the layer does not wrap, and a frame that has no
/// passthrough layer and does not ask to be blended by alpha, reaches the runtime
/// as the application submitted it: with its time, its blend mode, and each layer
/// in its place. The session stays as it is.
pub proof fn other_frames_go_through_as_they_are(
    session: Option<SessionState>,
    info: FrameEndInfoView,
    fresh: u64,
    replies: EndFrameReplies,
)
    requires
        info.layers.len() <= u32::MAX,
        session is None || (info.environment_blend_mode != 3 && forall|i: int|
            0 <= i < info.layers.len() && (#[trigger] info.layers[i]) is Some
                ==> info.layers[i]->Some_0.ty != 1000317004),
    ensures
        end_frame_result(session, info, fresh, replies).0 == session,
        end_frame_result(session, info, fresh, replies).1 matches Ok(frame) && {
            &&& frame.display_time == info.display_time
            &&& frame.environment_blend_mode == info.environment_blend_mode
            &&& frame.layer_count == info.layers.len()
            &&& frame.layers.len() == info.layers.len()
            &&& forall|i: int|
                0 <= i < info.layers.len() ==> #[trigger] frame.layers[i] == (
                match info.layers[i] {
                    Some(layer) => Some(FrameLayer::App(layer)),
                    None => None,
                })
        },
{
    lemma_passthrough_place(info.layers);
    let place = passthrough_place(info.layers) as int;
    if session is Some && place < info.layers.len() {
        assert(info.layers[place] is Some);
    }
}

/// Whatever is done to a frame, it reaches the runtime with the time that the
/// application gave it. Its blend mode is the application's or opaque, the
/// runtime reads all of its layers and no more, and none of them but the camera
/// comes from elsewhere than the application.
pub proof fn forwarded_frames_are_the_applications(
    session: Option<SessionState>,
    info: FrameEndInfoView,
    fresh: u64,
    replies: EndFrameReplies,
)
    requires
        info.layers.len() < u32::MAX,
    ensures
        end_frame_result(session, info, fresh, replies).1 matches Ok(frame) ==> {
            &&& frame.display_time == info.display_time
            &&& frame.environment_blend_mode == info.environment_blend_mode
                || frame.environment_blend_mode == 1
            &&& frame.layer_count == frame.layers.len()
            &&& frame.seen_layers() == frame.layers
            &&& forall|i: int|
                0 <= i < frame.layers.len() ==> (#[trigger] frame.layers[i] matches Some(
                    FrameLayer::App(layer),
                ) ==> info.layers.contains(Some(layer)))
        },
{
    if let Ok(frame) = end_frame_result(session, info, fresh, replies).1 {
        lemma_stripped(info.layers);
        lemma_passthrough_place(info.layers);
        assert(frame.seen_layers() =~= frame.layers);
        let own = info.layers.map_values(|l: Option<Layer>| untouched(l));
        let kept = without_passthrough(info.layers);
        assert forall|i: int|
            0 <= i < frame.layers.len() && #[trigger] frame.layers[i] matches Some(
                FrameLayer::App(_),
            ) implies info.layers.contains(Some(frame.layers[i]->Some_0->App_0)) by {
            let layer = frame.layers[i]->Some_0->App_0;
            if frame == stripped_frame(info) {
                assert(frame.layers[i] == untouched(kept[i]));
                assert(kept[i] == Some(layer));
                assert(info.layers.contains(kept[i]));
            } else if frame.layers.len() == info.layers.len() {
                assert(frame.layers[i] == own[i]);
                assert(info.layers[i] == Some(layer));
            } else {
                assert(frame.layers[i] == own[i - 1]);
                assert(info.layers[i - 1] == Some(layer));
            }
        }
    }
}

/// A frame that is shown without the camera is opaque, and loses its passthrough
/// layers and nothing else: a layer more in the application's frame is a layer more
/// at the same end of this one, unless it is a passthrough layer.
pub proof fn passthrough_layers_are_left_out_one_by_one(
    info: FrameEndInfoView,
    layer: Option<Layer>,
)
    requires
        info.layers.len() < u32::MAX,
    ensures
        ({
            let frame = stripped_frame(info);
            let longer = stripped_frame(
                FrameEndInfoView { layers: info.layers.push(layer), ..info },
            );
            &&& frame.display_time == info.display_time
            &&& frame.environment_blend_mode == 1
            &&& frame.layer_count == frame.layers.len()
            &&& info.layers.len() == 0 ==> frame.layers.len() == 0
            &&& longer.layers == (match layer {
                Some(l) => if l.ty == 1000317004 {
                    frame.layers
                } else {
                    frame.layers.push(Some(FrameLayer::App(l)))
                },
                None => frame.layers.push(None),
            })
        }),
{
    reveal(Seq::filter);
    lemma_stripped(info.layers);
    let longer = info.layers.push(layer);
    assert(longer.drop_last() =~= info.layers);
    let frame = stripped_frame(info);
    let more = stripped_frame(FrameEndInfoView { layers: longer, ..info });
    match layer {
        Some(l) => {
            if l.ty == 1000317004 {
                assert(more.layers =~= frame.layers);
            } else {
                assert(more.layers =~= frame.layers.push(Some(FrameLayer::App(l))));
            }
        },
        None => {
            assert(more.layers =~= frame.layers.push(None));
        },
    }
}

/// Exactly one passthrough layer, at a place: it is the one that is counted and
/// found.
proof fn lemma_only_place(layers: Seq<Option<Layer>>, place: int)
    requires
        0 <= place < layers.len(),
        layers[place] matches Some(l) && l.ty == 1000317004,
        forall|i: int|
            0 <= i < layers.len() && i != place && (#[trigger] layers[i]) is Some
                ==> layers[i]->Some_0.ty != 1000317004,
    ensures
        passthrough_count(layers) == 1,
        passthrough_place(layers) == place,
    decreases layers.len(),
{
    lemma_counted(layers, place);
    lemma_passthrough_place(layers);
    assert(layers[passthrough_place(layers) as int] is Some);
    let rest = layers.drop_last();
    if place < layers.len() - 1 {
        assert forall|i: int|
            0 <= i < rest.len() && i != place && (#[trigger] rest[i]) is Some implies
            rest[i]->Some_0.ty != 1000317004 by {
            assert(rest[i] == layers[i]);
        }
        lemma_only_place(rest, place);
        assert(layers.last() == layers[layers.len() - 1]);
    } else {
        lemma_passthrough_place(rest);
        if passthrough_count(rest) > 0 {
            let p = passthrough_place(rest) as int;
            assert(rest[p] == layers[p]);
        }
    }
}

/// The camera layer stands where the one passthrough layer stood. The other layers
/// keep their places, and a frame that was to be blended by alpha is opaque.
pub proof fn camera_stands_for_the_passthrough_layer(
    info: FrameEndInfoView,
    camera: CameraLayer,
    place: int,
)
    requires
        info.layers.len() <= u32::MAX,
        0 <= place < info.layers.len(),
        info.layers[place] matches Some(l) && l.ty == 1000317004,
        forall|i: int|
            0 <= i < info.layers.len() && i != place && (#[trigger] info.layers[i]) is Some
                ==> info.layers[i]->Some_0.ty != 1000317004,
    ensures
        ({
            let frame = camera_frame(info, camera);
            &&& frame.display_time == info.display_time
            &&& frame.environment_blend_mode == (if info.environment_blend_mode == 3 {
                1
            } else {
                info.environment_blend_mode
            })
            &&& frame.layer_count == info.layers.len()
            &&& frame.layers.len() == info.layers.len()
            &&& frame.layers[place] == Some(FrameLayer::Camera(camera))
            &&& forall|i: int|
                0 <= i < info.layers.len() && i != place ==> #[trigger] frame.layers[i] == (
                match info.layers[i] {
                    Some(layer) => Some(FrameLayer::App(layer)),
                    None => None,
                })
        }),
{
    lemma_only_place(info.layers, place);
}

/// In a frame without a passthrough layer the camera layer is one more, in front of
/// the application's own layers.
pub proof fn camera_stands_in_front_of_the_layers(info: FrameEndInfoView, camera: CameraLayer)
    requires
        info.layers.len() < u32::MAX,
        forall|i: int|
            0 <= i < info.layers.len() && (#[trigger] info.layers[i]) is Some
                ==> info.layers[i]->Some_0.ty != 1000317004,
    ensures
        ({
            let frame = camera_frame(info, camera);
            &&& frame.display_time == info.display_time
            &&& frame.environment_blend_mode == (if info.environment_blend_mode == 3 {
                1
            } else {
                info.environment_blend_mode
            })
            &&& frame.layer_count == info.layers.len() + 1
            &&& frame.layers.len() == info.layers.len() + 1
            &&& frame.layers[0] == Some(FrameLayer::Camera(camera))
            &&& forall|i: int|
                0 <= i < info.layers.len() ==> frame.layers[i + 1] == (
                match #[trigger] info.layers[i] {
                    Some(layer) => Some(FrameLayer::App(layer)),
                    None => None,
                })
        }),
{
    lemma_passthrough_place(info.layers);
    let place = passthrough_place(info.layers) as int;
    if place < info.layers.len() {
        assert(info.layers[place] is Some);
    }
}

/// The eyes share the image that the camera is copied to: the first view sees its
/// left half, the second view its right half, and together they see all of it,
/// blended by its own alpha.
pub proof fn eyes_share_the_camera_image(size: UVec2)
    requires
        size.x * 2 <= i32::MAX,
        size.y <= i32::MAX,
    ensures
        ({
            let layer = camera_layer_for(size);
            &&& layer.blend_texture_source_alpha
            &&& layer.left.view == 0 && layer.right.view == 1
            &&& layer.left.rect.x == 0 && layer.left.rect.y == 0 && layer.right.rect.y == 0
            &&& layer.left.rect.x + layer.left.rect.width == layer.right.rect.x
            &&& layer.left.rect.width == layer.right.rect.width
            &&& layer.right.rect.x + layer.right.rect.width == size.x * 2
            &&& layer.left.rect.height == size.y && layer.right.rect.height == size.y
        }),
{
}

/// More than one passthrough layer is the application's mistake: the frame is
/// refused, and the session stays as it is.
pub proof fn two_passthrough_layers_are_refused(
    state: SessionState,
    info: FrameEndInfoView,
    fresh: u64,
    replies: EndFrameReplies,
    i: int,
    j: int,
)
    requires
        0 <= i < j < info.layers.len(),
        info.layers[i] matches Some(l) && l.ty == 1000317004,
        info.layers[j] matches Some(l) && l.ty == 1000317004,
    ensures
        end_frame_result(Some(state), info, fresh, replies) == (Some(state), Err::<
            FrameView,
            XrErr,
        >(XrErr { code: ERROR_VALIDATION_FAILURE })),
{
    lemma_counted_twice(info.layers, i, j);
}

/// What becomes of a frame with one passthrough layer, in a running session with
/// the object `own` and perhaps an image at hand. The layer has to name that
/// object. Where the eyes are not located, or there is no image, the frame goes on
/// without the camera and the image is kept. Otherwise the image is used up, and
/// the frame has the camera if it could be copied and the image given back.
pub proof fn frame_with_a_passthrough_layer(
    view_type: i32,
    own: u64,
    size: UVec2,
    image_index: Option<u32>,
    info: FrameEndInfoView,
    place: int,
    fresh: u64,
    replies: EndFrameReplies,
)
    requires
        0 <= place < info.layers.len(),
        info.layers[place] matches Some(l) && l.ty == 1000317004,
        forall|i: int|
            0 <= i < info.layers.len() && i != place && (#[trigger] info.layers[i]) is Some
                ==> info.layers[i]->Some_0.ty != 1000317004,
    ensures
        ({
            let state = SessionState::Running {
                view_type,
                passthrough: Some(own),
                size,
                image_index,
            };
            let used = SessionState::Running {
                view_type,
                passthrough: Some(own),
                size,
                image_index: None,
            };
            let (after, result) = end_frame_result(Some(state), info, fresh, replies);
            match (replies.object, replies.views) {
                (Err(e), _) => after == Some(state) && result == Err::<FrameView, XrErr>(e),
                (Ok(named), _) if named != own => after == Some(state) && result == Err::<
                    FrameView,
                    XrErr,
                >(XrErr { code: ERROR_VALIDATION_FAILURE }),
                (_, Err(e)) => after == Some(state) && result == Err::<FrameView, XrErr>(e),
                (_, Ok(located)) => if located.position_valid && located.orientation_valid
                    && image_index is Some {
                    &&& after == Some(used)
                    &&& !replies.copied ==> result == Err::<FrameView, XrErr>(XrErr { code: ERROR_RUNTIME_FAILURE })
                    &&& replies.copied ==> (replies.released matches Err(e) ==> result == Err::<
                        FrameView,
                        XrErr,
                    >(e))
                    &&& replies.copied && replies.released is Ok ==> result == Ok::<
                        FrameView,
                        XrErr,
                    >(camera_frame(info, camera_layer_for(size)))
                } else {
                    after == Some(state) && result == Ok::<FrameView, XrErr>(stripped_frame(info))
                },
            }
        }),
{
    lemma_only_place(info.layers, place);
}

/// A frame that asks for the surroundings in a session that is not running is
/// refused, whatever else is answered. The session has an object attached
/// afterwards: the one it had, or else the new one.
pub proof fn frame_of_an_idle_session(
    passthrough: Option<u64>,
    info: FrameEndInfoView,
    fresh: u64,
    replies: EndFrameReplies,
)
    requires
        info.environment_blend_mode == 3,
        forall|i: int|
            0 <= i < info.layers.len() && (#[trigger] info.layers[i]) is Some
                ==> info.layers[i]->Some_0.ty != 1000317004,
    ensures
        ({
            let attached = match passthrough {
                Some(id) => id,
                None => fresh,
            };
            end_frame_result(Some(SessionState::Idle { passthrough }), info, fresh, replies) == (
                Some(SessionState::Idle { passthrough: Some(attached) }),
                Err::<FrameView, XrErr>(XrErr { code: ERROR_SESSION_NOT_RUNNING }),
            )
        }),
{
    lemma_passthrough_place(info.layers);
    let place = passthrough_place(info.layers) as int;
    if place < info.layers.len() {
        assert(info.layers[place] is Some);
    }
}

/// A passthrough object is attached where there was none, and nothing else
/// changes. In a running session it takes a camera: where that cannot be set up,
/// that is the answer, and nothing changes at all.
pub proof fn new_objects_are_attached(
    view_type: i32,
    size: UVec2,
    image_index: Option<u32>,
    fresh: u64,
    camera: Result<(), XrErr>,
)
    ensures
        attach_result(SessionState::Idle { passthrough: None }, fresh, camera) == (
            SessionState::Idle { passthrough: Some(fresh) },
            Ok::<u64, XrErr>(fresh),
        ),
        ({
            let before = SessionState::Running { view_type, passthrough: None, size, image_index };
            attach_result(before, fresh, camera) == (match camera {
                Ok(_) => (
                    SessionState::Running {
                        view_type,
                        passthrough: Some(fresh),
                        size,
                        image_index,
                    },
                    Ok::<u64, XrErr>(fresh),
                ),
                Err(e) => (before, Err(e)),
            })
        }),
{
}

/// A session begins to run only where it was idle, and nothing that is asked for
/// on the way fails. It then runs with the view configuration that was asked for,
/// with the object that it had, with room in each eye for what either of the first
/// two views asks for and no more, and without an image at hand. A camera is asked
/// for only where an object is attached.
pub proof fn begun_sessions_have_room_for_both_eyes(
    passthrough: Option<u64>,
    view_type: i32,
    replies: BeginReplies,
)
    ensures
        ({
            let result = begin_result(SessionState::Idle { passthrough }, view_type, replies);
            &&& replies.views matches Err(e) ==> result == Err::<SessionState, XrErr>(e)
            &&& replies.views is Ok && passthrough is Some ==> (replies.camera matches Err(e)
                ==> result == Err::<SessionState, XrErr>(e))
            &&& result is Ok ==> {
                &&& replies.views is Ok && replies.formats is Ok
                &&& replies.swapchain is Ok && replies.images is Ok
                &&& passthrough is Some ==> replies.camera is Ok
                &&& replies.formats->Ok_0@.contains(37) || replies.formats->Ok_0@.contains(43)
                    || replies.formats->Ok_0@.contains(44) || replies.formats->Ok_0@.contains(50)
            }
            &&& result matches Ok(state) ==> {
                let views = replies.views->Ok_0@;
                &&& state matches SessionState::Running {
                    view_type: v,
                    passthrough: p,
                    size,
                    image_index,
                }
                &&& v == view_type && p == passthrough && image_index is None
                &&& size.x >= views[0].width && size.x >= views[1].width
                &&& size.y >= views[0].height && size.y >= views[1].height
                &&& size.x == views[0].width || size.x == views[1].width
                &&& size.y == views[0].height || size.y == views[1].height
            }
        }),
{
    if let Ok(formats) = replies.formats {
        color_format_goes_by_number(formats@);
    }
}

/// What is answered when a session begins: the runtime's swapchain and its images
/// may still fail after the formats, and formats that will not do are a failure of
/// the runtime. A session that is running cannot be begun.
pub proof fn late_failures_to_begin(
    passthrough: Option<u64>,
    view_type: i32,
    replies: BeginReplies,
    running: SessionState,
)
    requires
        replies.views is Ok,
        replies.camera is Ok,
        running is Running,
    ensures
        ({
            let result = begin_result(SessionState::Idle { passthrough }, view_type, replies);
            match replies.formats {
                Err(e) => result == Err::<SessionState, XrErr>(e),
                Ok(codes) => if !codes@.contains(37) && !codes@.contains(43) && !codes@.contains(44)
                    && !codes@.contains(50) {
                    result == Err::<SessionState, XrErr>(XrErr { code: ERROR_RUNTIME_FAILURE })
                } else if formats_are_known(codes@) {
                    match (replies.swapchain, replies.images) {
                        (Err(e), _) => result == Err::<SessionState, XrErr>(e),
                        (Ok(_), Err(e)) => result == Err::<SessionState, XrErr>(e),
                        (Ok(_), Ok(_)) => result is Ok,
                    }
                } else {
                    result == Err::<SessionState, XrErr>(XrErr { code: ERROR_RUNTIME_FAILURE })
                },
            }
        }),
        begin_result(running, view_type, replies) == Err::<SessionState, XrErr>(
            XrErr { code: ERROR_SESSION_RUNNING },
        ),
{
    if let Ok(formats) = replies.formats {
        color_format_goes_by_number(formats@);
    }
}

/// The swapchain for the camera has one image for both eyes, side by side, of the
/// height of one, in the format and with the samples that were chosen. It can be
/// drawn to and copied to. Its images are wrapped as what they are.
pub proof fn camera_swapchain_holds_both_eyes(size: UVec2, sample_count: u32, format: Format)
    requires
        size.x * 2 <= u32::MAX,
    ensures
        ({
            let plan = camera_swapchain(size, sample_count, format);
            let image = camera_swapchain_image(size, format);
            &&& plan.width == size.x + size.x && plan.height == size.y
            &&& plan.array_size == 1 && plan.face_count == 1 && plan.mip_count == 1
            &&& plan.format == format && plan.sample_count == sample_count
            &&& plan.usage.color_attachment && plan.usage.transfer_dst
            &&& !plan.usage.transfer_src && !plan.usage.sampled
                && !plan.usage.depth_stencil_attachment
            &&& image.width == plan.width && image.height == plan.height
            &&& image.array_layers == plan.array_size
            &&& image.format == plan.format && image.usage == plan.usage
        }),
{
}

/// While a session begins, the camera is set up for the size of an eye, and the
/// swapchain has the samples that the first view asks for.
pub proof fn camera_and_swapchain_follow_the_views(
    passthrough: u64,
    views: Seq<ViewConfig>,
    formats: Seq<u32>,
)
    requires
        views.len() >= 2,
        formats_are_known(formats),
        formats.contains(37),
    ensures
        ({
            let (stage, action) = begin_after_views(
                SessionState::Idle { passthrough: Some(passthrough) },
                Ok(views),
            );
            &&& action matches BeginAction::CreateCamera { size } && stage == (BeginStage::Camera {
                size,
                sample_count: views[0].sample_count,
            }) && (size.x == views[0].width || size.x == views[1].width) && size.x
                >= views[0].width && size.x >= views[1].width && (size.y == views[0].height
                || size.y == views[1].height) && size.y >= views[0].height && size.y
                >= views[1].height
        }),
        ({
            let (stage, action) = begin_after_views(
                SessionState::Idle { passthrough: None },
                Ok(views),
            );
            &&& action is EnumerateFormats
            &&& stage matches BeginStage::Formats { size, sample_count } && sample_count
                == views[0].sample_count && (begin_after_formats(
                size,
                sample_count,
                Ok(formats),
            ).1 matches BeginAction::CreateSwapchain { plan } && plan.format
                == Format::R8G8B8A8Unorm && plan.sample_count == views[0].sample_count
                && plan.height == size.y)
        }),
{
    color_format_goes_by_number(formats);
}

/// The start of a frame, as the runtime, the session and its images have it. Only
/// plain success of the runtime goes any further. An image is acquired where none
/// is at hand, and kept though waiting for it fails.
pub proof fn frames_start_with_an_image(
    view_type: i32,
    passthrough: Option<u64>,
    size: UVec2,
    at_hand: u32,
    replies: BeginFrameReplies,
)
    ensures
        ({
            let idle = SessionState::Idle { passthrough };
            let empty = SessionState::Running { view_type, passthrough, size, image_index: None };
            let full = SessionState::Running {
                view_type,
                passthrough,
                size,
                image_index: Some(at_hand),
            };
            if replies.begun.code == 0 {
                &&& begin_frame_result(Some(idle), replies) == (Some(idle), XrErr { code: ERROR_SESSION_NOT_RUNNING })
                &&& begin_frame_result(Some(full), replies) == (Some(full), XrErr { code: 0 })
                &&& replies.acquired matches Err(e) ==> begin_frame_result(Some(empty), replies)
                    == (Some(empty), e)
                &&& replies.acquired == Ok::<u32, XrErr>(at_hand) ==> begin_frame_result(
                    Some(empty),
                    replies,
                ) == (
                    Some(full),
                    match replies.ready {
                        Ok(_) => XrErr { code: 0 },
                        Err(e) => e,
                    },
                )
            } else {
                &&& begin_frame_result(Some(idle), replies) == (Some(idle), replies.begun)
                &&& begin_frame_result(Some(full), replies) == (Some(full), replies.begun)
                &&& begin_frame_result(Some(empty), replies) == (Some(empty), replies.begun)
            }
        }),
{
}

/// A session is begun where it is idle and ended where it runs; the other way
/// round the call is refused. A session that the layer does not wrap is the
/// runtime's alone.
pub proof fn calls_go_by_whether_the_session_runs(
    view_type: i32,
    passthrough: Option<u64>,
    size: UVec2,
    image_index: Option<u32>,
)
    ensures
        ({
            let idle = SessionState::Idle { passthrough };
            let running = SessionState::Running { view_type, passthrough, size, image_index };
            &&& begin_session_call(None) == SessionCall::Forward
            &&& end_session_call(None) == SessionCall::Forward
            &&& begin_session_call(Some(idle)) == SessionCall::Proceed
            &&& begin_session_call(Some(running)) == SessionCall::Refuse(XrErr { code: ERROR_SESSION_RUNNING })
            &&& end_session_call(Some(running)) == SessionCall::Proceed
            &&& end_session_call(Some(idle)) == SessionCall::Refuse(XrErr { code: ERROR_SESSION_NOT_RUNNING })
            &&& running.ended() == idle
        }),
{
}

/// What becomes of a frame without a passthrough layer that is to be blended by
/// alpha, in a running session that has an object. It is no matter which object
/// that is, and none is looked up.
pub proof fn frame_that_is_blended(
    view_type: i32,
    own: u64,
    size: UVec2,
    image_index: Option<u32>,
    info: FrameEndInfoView,
    fresh: u64,
    replies: EndFrameReplies,
)
    requires
        info.environment_blend_mode == 3,
        forall|i: int|
            0 <= i < info.layers.len() && (#[trigger] info.layers[i]) is Some
                ==> info.layers[i]->Some_0.ty != 1000317004,
    ensures
        ({
            let state = SessionState::Running {
                view_type,
                passthrough: Some(own),
                size,
                image_index,
            };
            let used = SessionState::Running {
                view_type,
                passthrough: Some(own),
                size,
                image_index: None,
            };
            let (after, result) = end_frame_result(Some(state), info, fresh, replies);
            match replies.views {
                Err(e) => after == Some(state) && result == Err::<FrameView, XrErr>(e),
                Ok(located) => if located.position_valid && located.orientation_valid
                    && image_index is Some {
                    &&& after == Some(used)
                    &&& !replies.copied ==> result == Err::<FrameView, XrErr>(
                        XrErr { code: ERROR_RUNTIME_FAILURE },
                    )
                    &&& replies.copied ==> (replies.released matches Err(e) ==> result == Err::<
                        FrameView,
                        XrErr,
                    >(e))
                    &&& replies.copied && replies.released is Ok ==> result == Ok::<
                        FrameView,
                        XrErr,
                    >(camera_frame(info, camera_layer_for(size)))
                } else {
                    after == Some(state) && result == Ok::<FrameView, XrErr>(stripped_frame(info))
                },
            }
        }),
{
    lemma_passthrough_place(info.layers);
    let place = passthrough_place(info.layers) as int;
    if place < info.layers.len() {
        assert(info.layers[place] is Some);
    }
}

/// A frame that asks for the surroundings in a running session without an object
/// takes a camera first. Where it can be had, the frame fares as if the new object
/// had been attached before; where it cannot, that is the answer.
pub proof fn frame_that_needs_a_camera(
    view_type: i32,
    size: UVec2,
    image_index: Option<u32>,
    info: FrameEndInfoView,
    fresh: u64,
    replies: EndFrameReplies,
)
    requires
        passthrough_count(info.layers) == 1 || passthrough_count(info.layers) == 0
            && info.environment_blend_mode == 3,
    ensures
        ({
            let bare = SessionState::Running { view_type, passthrough: None, size, image_index };
            let attached = SessionState::Running {
                view_type,
                passthrough: Some(fresh),
                size,
                image_index,
            };
            end_frame_result(Some(bare), info, fresh, replies) == (match replies.camera {
                Ok(_) => end_frame_result(Some(attached), info, fresh, replies),
                Err(e) => (Some(bare), Err::<FrameView, XrErr>(e)),
            })
        }),
{
}

/// A passthrough layer in a session that is not running: it has to name the
/// session's object, and is refused all the same.
pub proof fn passthrough_layer_of_an_idle_session(
    passthrough: Option<u64>,
    info: FrameEndInfoView,
    place: int,
    fresh: u64,
    replies: EndFrameReplies,
)
    requires
        0 <= place < info.layers.len(),
        info.layers[place] matches Some(l) && l.ty == 1000317004,
        forall|i: int|
            0 <= i < info.layers.len() && i != place && (#[trigger] info.layers[i]) is Some
                ==> info.layers[i]->Some_0.ty != 1000317004,
    ensures
        ({
            let own = match passthrough {
                Some(id) => id,
                None => fresh,
            };
            let (after, result) = end_frame_result(
                Some(SessionState::Idle { passthrough }),
                info,
                fresh,
                replies,
            );
            &&& after == Some(SessionState::Idle { passthrough: Some(own) })
            &&& result == Err::<FrameView, XrErr>(
                match replies.object {
                    Err(e) => e,
                    Ok(named) => if named == own {
                        XrErr { code: ERROR_SESSION_NOT_RUNNING }
                    } else {
                        XrErr { code: ERROR_VALIDATION_FAILURE }
                    },
                },
            )
        }),
{
    lemma_only_place(info.layers, place);
}

/// Beginning and ending a session for the application. A call at the wrong time, and a
/// call that the runtime refuses, changes nothing and says so. A session that is
/// begun runs as it was asked to, or is left idle with the reason; one that is ended
/// is idle, with the object that it had.
pub proof fn sessions_are_begun_and_ended(
    view_type: i32,
    passthrough: Option<u64>,
    size: UVec2,
    image_index: Option<u32>,
    runtime: Result<(), XrErr>,
    replies: BeginReplies,
)
    ensures
        ({
            let idle = SessionState::Idle { passthrough };
            let running = SessionState::Running { view_type, passthrough, size, image_index };
            let (begun, code) = begin_session_result(idle, view_type, runtime, replies);
            &&& begin_session_result(running, view_type, runtime, replies) == (
                running,
                XrErr { code: ERROR_SESSION_RUNNING },
            )
            &&& end_session_result(idle, runtime) == (
                idle,
                XrErr { code: ERROR_SESSION_NOT_RUNNING },
            )
            &&& runtime matches Err(e) ==> begun == idle && code == e && end_session_result(
                running,
                runtime,
            ) == (running, e)
            &&& runtime is Ok ==> end_session_result(running, runtime) == (
                idle,
                XrErr { code: 0 },
            )
            &&& runtime is Ok ==> (begin_result(idle, view_type, replies) matches Ok(state)
                ==> begun == state && code.code == 0)
            &&& runtime is Ok ==> (begin_result(idle, view_type, replies) matches Err(e) ==> begun
                == idle && code == e)
        }),
{
}

/// What is asked for while a frame ends. A camera is set up for the session's eyes
/// where there is no object yet; the object is looked up that the one passthrough
/// layer names; the eyes are located for the session's view configuration and the
/// frame's time; and the camera is copied to all of the image that was at hand, which
/// is two eyes wide.
pub proof fn ending_a_frame_asks_for_the_sessions_own(
    view_type: i32,
    own: u64,
    size: UVec2,
    image: u32,
    info: FrameEndInfoView,
    place: int,
    fresh: u64,
    located: LocatedViews,
)
    requires
        size.x * 2 <= u32::MAX,
        0 <= place < info.layers.len(),
        info.layers[place] matches Some(l) && l.ty == 1000317004,
        forall|i: int|
            0 <= i < info.layers.len() && i != place && (#[trigger] info.layers[i]) is Some
                ==> info.layers[i]->Some_0.ty != 1000317004,
        located.position_valid,
        located.orientation_valid,
    ensures
        ({
            let bare = SessionState::Running {
                view_type,
                passthrough: None,
                size,
                image_index: Some(image),
            };
            let state = SessionState::Running {
                view_type,
                passthrough: Some(own),
                size,
                image_index: Some(image),
            };
            let layer = info.layers[place]->Some_0;
            &&& end_frame_first(Some(bare), info, fresh).action == (
            EndFrameActionView::CreateCamera { size })
            &&& end_frame_first(Some(state), info, fresh).action == (
            EndFrameActionView::ResolvePassthrough { layer })
            &&& end_frame_resolved(state, info, own, Ok(own)).action == (
            EndFrameActionView::LocateViews { view_type, display_time: info.display_time })
            &&& end_frame_located(state, info, Ok(located)).action matches
                EndFrameActionView::CopyCamera { image_index, width, height } && image_index
                == image && width == size.x + size.x && height == size.y
        }),
{
    lemma_only_place(info.layers, place);
}

/// Without an object no camera is asked for: it makes no difference whether one could
/// be had.
pub proof fn no_camera_is_needed_without_an_object(
    view_type: i32,
    replies: BeginReplies,
    camera: Result<(), XrErr>,
)
    ensures
        begin_result(SessionState::Idle { passthrough: None }, view_type, replies) == begin_result(
            SessionState::Idle { passthrough: None },
            view_type,
            BeginReplies { camera, ..replies },
        ),
        begin_after_views(SessionState::Idle { passthrough: None }, views_of(replies.views)).1
            matches BeginAction::CreateCamera { .. } ==> false,
{
}

/// A camera that was set up changes nothing about the swapchain: the formats are asked
/// for with the size and the samples that the views gave, just as without a camera. The
/// images that are wrapped are those of the swapchain. What fails is the answer.
pub proof fn steps_of_beginning_keep_what_the_views_gave(
    passthrough: u64,
    views: Seq<ViewConfig>,
    format: Format,
    e: XrErr,
)
    requires
        views.len() >= 2,
    ensures
        ({
            let with = begin_after_views(
                SessionState::Idle { passthrough: Some(passthrough) },
                Ok(views),
            ).0;
            let without = begin_after_views(SessionState::Idle { passthrough: None }, Ok(views));
            with matches BeginStage::Camera { size, sample_count } && {
                &&& begin_after_camera(size, sample_count, Ok(())) == without
                &&& begin_after_camera(size, sample_count, Err(e)) == (
                    BeginStage::Finished,
                    BeginAction::Return { result: Err(e) },
                )
                &&& begin_after_swapchain(size, format, Err(e)) == (
                    BeginStage::Finished,
                    BeginAction::Return { result: Err(e) },
                )
                &&& begin_after_swapchain(size, format, Ok(())).0 == (BeginStage::Images { size })
                &&& begin_after_swapchain(size, format, Ok(())).1 matches BeginAction::WrapImages {
                    image,
                } && image.width == camera_swapchain(size, sample_count, format).width
                    && image.height == camera_swapchain(size, sample_count, format).height
                    && image.format == format && image.array_layers == 1
            }
        }),
{
}

} // verus!
