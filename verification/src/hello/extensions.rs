//! Which OpenXR extensions and API layers the application asks for.
use crate::setup::XrExtensions;
use crate::xr::XrErr;
use vstd::prelude::*;

verus! {

/// The API layer that is always asked for.
pub const API_DUMP_LAYER: &'static str = "XR_APILAYER_LUNARG_api_dump";

/// Name of the application.
pub const APPLICATION_NAME: &'static str = "openxr hello world";

/// The search for an API layer that offers passthrough.
#[derive(Debug, Eq, PartialEq, Clone, Copy, Structural)]
pub enum LayerSearch {
    /// Ask the layer at this place for its extensions next.
    Ask(usize),
    /// The layer at this place offers passthrough.
    Found(usize),
    /// A layer could not be asked.
    Failed(XrErr),
    /// No layer offers passthrough.
    NotFound,
}

/// Whether a layer's reply lets the search go on.
pub open spec fn goes_on(reply: Result<bool, XrErr>) -> bool {
    reply == Ok::<bool, XrErr>(false)
}

/// The search after some layers replied, in order, whether they offer
/// passthrough: it ends at the first one that does, or that could not be asked.
pub open spec fn layer_search_after(layers: nat, replies: Seq<Result<bool, XrErr>>) -> LayerSearch
    decreases replies.len(),
{
    if replies.len() == 0 {
        if layers > 0 {
            LayerSearch::Ask(0)
        } else {
            LayerSearch::NotFound
        }
    } else {
        let before = layer_search_after(layers, replies.drop_last());
        match before {
            LayerSearch::Ask(_) => match replies.last() {
                Ok(true) => LayerSearch::Found((replies.len() - 1) as usize),
                Err(e) => LayerSearch::Failed(e),
                Ok(false) => if replies.len() < layers {
                    LayerSearch::Ask(replies.len() as usize)
                } else {
                    LayerSearch::NotFound
                },
            },
            _ => before,
        }
    }
}

/// The search after some of the layers replied.
pub fn layer_search(layers: usize, replies: &[Result<bool, XrErr>]) -> (search: LayerSearch)
    requires
        replies@.len() <= layers,
    ensures
        search == layer_search_after(layers as nat, replies@),
{
    let mut search = if layers > 0 {
        LayerSearch::Ask(0)
    } else {
        LayerSearch::NotFound
    };
    let mut i: usize = 0;
    assert(replies@.take(0) =~= Seq::<Result<bool, XrErr>>::empty());
    while i < replies.len()
        invariant
            i <= replies@.len() <= layers,
            search == layer_search_after(layers as nat, replies@.take(i as int)),
        decreases replies.len() - i,
    {
        proof {
            assert(replies@.take(i + 1).drop_last() =~= replies@.take(i as int));
        }
        if let LayerSearch::Ask(_) = search {
            search = match &replies[i] {
                Ok(offers) => if *offers {
                    LayerSearch::Found(i)
                } else if i + 1 < layers {
                    LayerSearch::Ask(i + 1)
                } else {
                    LayerSearch::NotFound
                },
                Err(e) => LayerSearch::Failed(*e),
            };
        }
        i += 1;
    }
    assert(replies@.take(replies@.len() as int) =~= replies@);
    search
}

/// A layer is used only if it offers passthrough and none before it does.
pub proof fn first_layer_with_passthrough_is_used(
    layers: nat,
    replies: Seq<Result<bool, XrErr>>,
    place: usize,
)
    requires
        replies.len() <= layers <= usize::MAX,
    ensures
        layer_search_after(layers, replies) == LayerSearch::Found(place) <==> place < replies.len()
            && replies[place as int] == Ok::<bool, XrErr>(true) && (forall|j: int|
            0 <= j < place ==> goes_on(#[trigger] replies[j])),
        layer_search_after(layers, replies) == LayerSearch::Ask(place) <==> place == replies.len()
            && place < layers && (forall|j: int|
            0 <= j < replies.len() ==> goes_on(#[trigger] replies[j])),
        layer_search_after(layers, replies) == LayerSearch::NotFound <==> replies.len() == layers
            && (forall|j: int| 0 <= j < replies.len() ==> goes_on(#[trigger] replies[j])),
    decreases replies.len(),
{
    if replies.len() > 0 {
        let before = replies.drop_last();
        first_layer_with_passthrough_is_used(layers, before, place);
        first_layer_with_passthrough_is_used(layers, before, before.len() as usize);
        assert(forall|j: int| 0 <= j < before.len() ==> before[j] == replies[j]);
        if (forall|j: int| 0 <= j < before.len() ==> goes_on(#[trigger] before[j])) {
            assert(layer_search_after(layers, before) == LayerSearch::Ask(before.len() as usize));
            if place < before.len() {
                assert(goes_on(before[place as int]));
                assert(goes_on(replies[place as int]));
            }
            assert(forall|j: int| 0 <= j < before.len() ==> goes_on(#[trigger] replies[j]));
        } else {
            let k = choose|k: int| 0 <= k < before.len() && !goes_on(#[trigger] before[k]);
            assert(!goes_on(replies[k]));
            assert(!(layer_search_after(layers, before) is Ask)) by {
                if layer_search_after(layers, before) is Ask {
                    let p = layer_search_after(layers, before)->Ask_0;
                    first_layer_with_passthrough_is_used(layers, before, p);
                }
            }
        }
    }
}

/// What the application asks for.
#[derive(Debug, Eq, PartialEq, Clone, Copy, Structural)]
pub struct ExtensionChoice {
    pub extensions: XrExtensions,
    /// Place of the API layer that offers passthrough, if one is needed.
    pub layer: Option<usize>,
}

/// What the application asks for: passthrough where the runtime or a layer offers it,
/// depth layers where the runtime does, and the API layer only where it is needed.
pub open spec fn extension_choice(
    has_passthrough: bool,
    has_depth: bool,
    layer: Option<usize>,
) -> ExtensionChoice {
    ExtensionChoice {
        extensions: XrExtensions {
            htc_passthrough: has_passthrough || layer is Some,
            khr_composition_layer_depth: has_depth,
            khr_vulkan_enable: false,
            khr_vulkan_enable2: false,
            khr_convert_timespec_time: false,
        },
        layer: if has_passthrough {
            None
        } else {
            layer
        },
    }
}

/// What the application asks for, given whether the runtime offers passthrough
/// and depth layers, and the layer that offers passthrough where the runtime
/// itself does not.
pub fn choose_extensions(
    has_passthrough: bool,
    has_depth: bool,
    layer: Option<usize>,
) -> (choice: ExtensionChoice)
    ensures
        choice == extension_choice(has_passthrough, has_depth, layer),
{
    let extensions = XrExtensions {
        htc_passthrough: has_passthrough || layer.is_some(),
        khr_composition_layer_depth: has_depth,
        khr_vulkan_enable: false,
        khr_vulkan_enable2: false,
        khr_convert_timespec_time: false,
    };
    let layer = if has_passthrough {
        None
    } else {
        layer
    };
    ExtensionChoice { extensions, layer }
}

/// Passthrough is asked for exactly where it is to be had, and comes from the runtime
/// rather than from a layer. Depth is asked for exactly where the runtime offers it.
/// What Vulkan needs is not the application's to ask for.
pub proof fn extensions_are_asked_for_where_they_are_offered(
    has_passthrough: bool,
    has_depth: bool,
    place: usize,
)
    ensures
        ({
            let without = extension_choice(has_passthrough, has_depth, None);
            let with = extension_choice(has_passthrough, has_depth, Some(place));
            &&& without.extensions.htc_passthrough == has_passthrough
            &&& with.extensions.htc_passthrough
            &&& without.layer is None
            &&& has_passthrough ==> with.layer is None
            &&& !has_passthrough ==> with.layer == Some(place)
            &&& without.extensions.khr_composition_layer_depth == has_depth
            &&& with.extensions.khr_composition_layer_depth == has_depth
            &&& !with.extensions.khr_vulkan_enable && !with.extensions.khr_vulkan_enable2
            &&& !with.extensions.khr_convert_timespec_time
            &&& !without.extensions.khr_vulkan_enable && !without.extensions.khr_vulkan_enable2
            &&& !without.extensions.khr_convert_timespec_time
        }),
{
}

/// A layer that cannot be asked ends the search with its error, unless one before it
/// offers passthrough or could not be asked either.
pub proof fn layer_that_cannot_be_asked_ends_the_search(
    layers: nat,
    replies: Seq<Result<bool, XrErr>>,
    place: int,
)
    requires
        0 <= place < replies.len() <= layers <= usize::MAX,
        replies[place] is Err,
        forall|j: int| 0 <= j < place ==> goes_on(#[trigger] replies[j]),
    ensures
        layer_search_after(layers, replies) == LayerSearch::Failed(replies[place]->Err_0),
    decreases replies.len(),
{
    let before = replies.drop_last();
    if place < before.len() {
        assert(before[place] == replies[place]);
        assert forall|j: int| 0 <= j < place implies goes_on(#[trigger] before[j]) by {
            assert(before[j] == replies[j]);
        }
        layer_that_cannot_be_asked_ends_the_search(layers, before, place);
    } else {
        assert forall|j: int| 0 <= j < before.len() implies goes_on(#[trigger] before[j]) by {
            assert(before[j] == replies[j]);
        }
        first_layer_with_passthrough_is_used(layers, before, before.len() as usize);
    }
}

} // verus!
