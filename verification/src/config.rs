//! Choosing among the display configurations that the platform offers.

use vstd::prelude::*;
use crate::error::BuildError;
use crate::format::FormatRequest;

verus! {

/// Layout of a configuration's color buffer.
#[derive(Clone, Copy, Debug, PartialEq, Eq, Structural)]
pub enum ColorBuffer {
    /// Red, green and blue channels of the given sizes in bits.
    Rgb { r_size: u8, g_size: u8, b_size: u8 },
    /// A single luminance channel of the given size in bits.
    Luminance(u8),
}

/// What the negotiation reads of one display configuration.
#[derive(Clone, Copy, Debug, PartialEq, Eq)]
pub struct ConfigInfo {
    /// The color buffer's layout, `None` where the platform cannot tell.
    pub color_buffer: Option<ColorBuffer>,
    pub alpha_size: u8,
    pub depth_size: u8,
    pub stencil_size: u8,
    /// Samples of the multisample buffer, zero for none.
    pub num_samples: u8,
    /// Whether surfaces of this configuration can be sRGB-encoded.
    pub srgb_capable: bool,
}

/// The configuration to hand to the platform, and whether it is one the
/// request can live with.
#[derive(Clone, Copy, Debug, PartialEq, Eq, Structural)]
pub struct ConfigPick {
    /// Position of the configuration in the list that was offered.
    pub index: usize,
    /// `false` where nothing suitable was offered: the index then only
    /// stands in, and the pick must not be built on.
    pub suitable: bool,
}

impl ConfigInfo {
    /// Bits of the color channels, alpha not counted; zero for an unknown
    /// layout.
    pub open spec fn spec_color_bits(self) -> int {
        match self.color_buffer {
            None => 0,
            Some(ColorBuffer::Luminance(size)) => size as int,
            Some(ColorBuffer::Rgb { r_size, g_size, b_size }) => r_size + g_size + b_size,
        }
    }

    /// Computes [`ConfigInfo::spec_color_bits`].
    pub fn color_bits(&self) -> (bits: u16)
        ensures
            bits == self.spec_color_bits(),
    {
        match self.color_buffer {
            None => 0,
            Some(ColorBuffer::Luminance(size)) => size as u16,
            Some(ColorBuffer::Rgb { r_size, g_size, b_size }) => r_size as u16 + g_size as u16
                + b_size as u16,
        }
    }

    /// Whether color, alpha, depth and stencil sizes are exactly the
    /// requested ones.
    pub open spec fn has_requested_sizes(self, request: FormatRequest) -> bool {
        &&& self.spec_color_bits() == request.color_bits
        &&& self.alpha_size == request.alpha_bits
        &&& self.depth_size == request.depth_bits
        &&& self.stencil_size == request.stencil_bits
    }

    /// Whether the configuration can back `request`: it has the requested
    /// sizes, and it is sRGB-capable if sRGB is requested.
    pub open spec fn satisfies(self, request: FormatRequest) -> bool {
        &&& request.srgb ==> self.srgb_capable
        &&& self.has_requested_sizes(request)
    }

    /// Computes [`ConfigInfo::satisfies`].
    pub fn is_suitable(&self, request: &FormatRequest) -> (suitable: bool)
        ensures
            suitable == self.satisfies(*request),
    {
        (!request.srgb || self.srgb_capable) && self.color_bits() == request.color_bits as u16
            && self.alpha_size == request.alpha_bits && self.depth_size == request.depth_bits
            && self.stencil_size == request.stencil_bits
    }
}

/// Whether one of the first `end` configurations satisfies the request.
pub open spec fn any_suitable_before(
    configs: Seq<ConfigInfo>,
    request: FormatRequest,
    end: int,
) -> bool {
    exists|i: int| 0 <= i < end && (#[trigger] configs[i]).satisfies(request)
}

/// Whether `index` is the choice among the first `end` configurations: it
/// satisfies the request, no other that does has more samples, and none
/// after it has as many.
pub open spec fn is_best_before(
    configs: Seq<ConfigInfo>,
    request: FormatRequest,
    end: int,
    index: int,
) -> bool {
    &&& 0 <= index < end
    &&& configs[index].satisfies(request)
    &&& forall|j: int|
        0 <= j < end && (#[trigger] configs[j]).satisfies(request) ==> configs[j].num_samples
            <= configs[index].num_samples
    &&& forall|j: int|
        index < j < end && (#[trigger] configs[j]).satisfies(request) ==> configs[j].num_samples
            < configs[index].num_samples
}

/// Whether some configuration of the list satisfies the request.
pub open spec fn any_suitable(configs: Seq<ConfigInfo>, request: FormatRequest) -> bool {
    any_suitable_before(configs, request, configs.len() as int)
}

/// Whether `index` is the configuration to choose: among those that satisfy
/// the request the one with the most samples, and of several with the most
/// samples the last.
pub open spec fn is_best(configs: Seq<ConfigInfo>, request: FormatRequest, index: int) -> bool {
    is_best_before(configs, request, configs.len() as int, index)
}

/// The index of the configuration to choose, where one satisfies the request.
pub open spec fn best_index(configs: Seq<ConfigInfo>, request: FormatRequest) -> int {
    choose|index: int| is_best(configs, request, index)
}

/// The outcome of choosing from `configs`: an error for an empty list, the
/// best suitable configuration where there is one, and otherwise the first
/// configuration, marked as not suitable.
pub open spec fn spec_pick_config(configs: Seq<ConfigInfo>, request: FormatRequest) -> Result<
    ConfigPick,
    BuildError,
> {
    if configs.len() == 0 {
        Err(BuildError::NoConfigs)
    } else if any_suitable(configs, request) {
        Ok(ConfigPick { index: best_index(configs, request) as usize, suitable: true })
    } else {
        Ok(ConfigPick { index: 0, suitable: false })
    }
}

/// At most one index is the choice.
pub proof fn lemma_best_is_unique(
    configs: Seq<ConfigInfo>,
    request: FormatRequest,
    first: int,
    second: int,
)
    requires
        is_best(configs, request, first),
        is_best(configs, request, second),
    ensures
        first == second,
{
    if first < second {
        assert(configs[second].satisfies(request));
    } else if second < first {
        assert(configs[first].satisfies(request));
    }
}

/// Chooses the configuration to create the window and the surface with.
///
/// The platform wants a configuration back even when none is suitable; the
/// pick then names the first one and says that it is not suitable.
pub fn pick_config(configs: &Vec<ConfigInfo>, request: &FormatRequest) -> (picked: Result<
    ConfigPick,
    BuildError,
>)
    ensures
        picked == spec_pick_config(configs@, *request),
        picked matches Ok(pick) ==> pick.index < configs.len() && (pick.suitable ==> is_best(
            configs@,
            *request,
            pick.index as int,
        )),
{
    if configs.len() == 0 {
        return Err(BuildError::NoConfigs);
    }
    let mut best: Option<usize> = None;
    let mut i: usize = 0;
    while i < configs.len()
        invariant
            i <= configs.len(),
            best is None ==> !any_suitable_before(configs@, *request, i as int),
            best matches Some(b) ==> is_best_before(configs@, *request, i as int, b as int),
        decreases configs.len() - i,
    {
        if configs[i].is_suitable(request) {
            let better = match best {
                None => true,
                Some(b) => configs[i].num_samples >= configs[b].num_samples,
            };
            if better {
                best = Some(i);
            }
        }
        i = i + 1;
    }
    match best {
        Some(index) => {
            proof {
                assert(configs@[index as int].satisfies(*request));
                lemma_best_is_unique(
                    configs@,
                    *request,
                    index as int,
                    best_index(configs@, *request),
                );
            }
            Ok(ConfigPick { index, suitable: true })
        },
        None => Ok(ConfigPick { index: 0, suitable: false }),
    }
}

impl ConfigPick {
    /// What the pick means for the build: the index to go on with, or the
    /// failure to report.
    pub open spec fn spec_confirm(self) -> Result<usize, BuildError> {
        if self.suitable {
            Ok(self.index)
        } else {
            Err(BuildError::NoSuitableConfig)
        }
    }

    /// Turns a pick into the index to build with; a pick that is not
    /// suitable fails the build.
    pub fn confirm(self) -> (confirmed: Result<usize, BuildError>)
        ensures
            confirmed == self.spec_confirm(),
    {
        if self.suitable {
            Ok(self.index)
        } else {
            Err(BuildError::NoSuitableConfig)
        }
    }
}

/// The outcome of the negotiation as a whole: the index of the configuration
/// to build with, or the reason why there is none.
pub open spec fn spec_select_config(configs: Seq<ConfigInfo>, request: FormatRequest) -> Result<
    usize,
    BuildError,
> {
    match spec_pick_config(configs, request) {
        Ok(pick) => pick.spec_confirm(),
        Err(error) => Err(error),
    }
}

/// Chooses the configuration to build with, and fails where none will do:
/// for callers that owe the platform no configuration in that case.
pub fn select_config(configs: &Vec<ConfigInfo>, request: &FormatRequest) -> (selected: Result<
    usize,
    BuildError,
>)
    ensures
        selected == spec_select_config(configs@, *request),
        selected matches Ok(index) ==> is_best(configs@, *request, index as int),
{
    match pick_config(configs, request) {
        Ok(pick) => pick.confirm(),
        Err(error) => Err(error),
    }
}

/// Where a configuration satisfies the request, the chosen index is the
/// choice that [`is_best`] describes.
pub proof fn lemma_best_index_is_best(configs: Seq<ConfigInfo>, request: FormatRequest)
    requires
        any_suitable(configs, request),
    ensures
        is_best(configs, request, best_index(configs, request)),
{
    let index = lemma_best_exists(configs, request, configs.len() as int);
    assert(is_best(configs, request, index));
}

/// Among the first `end` configurations there is a choice, if one of them
/// satisfies the request.
proof fn lemma_best_exists(configs: Seq<ConfigInfo>, request: FormatRequest, end: int) -> (index:
    int)
    requires
        0 <= end <= configs.len(),
        any_suitable_before(configs, request, end),
    ensures
        is_best_before(configs, request, end, index),
    decreases end,
{
    let last = end - 1;
    if any_suitable_before(configs, request, last) {
        let before = lemma_best_exists(configs, request, last);
        if configs[last].satisfies(request) && configs[last].num_samples
            >= configs[before].num_samples {
            last
        } else {
            before
        }
    } else {
        let witness = choose|i: int| 0 <= i < end && (#[trigger] configs[i]).satisfies(request);
        assert(witness == last);
        last
    }
}

/// A list in which exactly one configuration satisfies the request yields
/// that configuration, whatever the sample counts of the others.
pub proof fn lemma_only_suitable_is_selected(
    configs: Seq<ConfigInfo>,
    request: FormatRequest,
    only: int,
)
    requires
        configs.len() <= usize::MAX,
        0 <= only < configs.len(),
        configs[only].satisfies(request),
        forall|j: int|
            0 <= j < configs.len() && j != only ==> !(#[trigger] configs[j]).satisfies(request),
    ensures
        spec_pick_config(configs, request) == Ok::<ConfigPick, BuildError>(
            ConfigPick { index: only as usize, suitable: true },
        ),
        spec_select_config(configs, request) == Ok::<usize, BuildError>(only as usize),
{
    assert(is_best(configs, request, only));
    lemma_best_is_unique(configs, request, only, best_index(configs, request));
}

/// Of two configurations that both satisfy the request and differ in their
/// sample counts, the one with more samples is selected.
pub proof fn lemma_more_samples_win(first: ConfigInfo, second: ConfigInfo, request: FormatRequest)
    requires
        first.satisfies(request),
        second.satisfies(request),
        first.num_samples != second.num_samples,
    ensures
        spec_select_config(seq![first, second], request) == Ok::<usize, BuildError>(
            if first.num_samples > second.num_samples {
                0usize
            } else {
                1usize
            },
        ),
{
    let configs = seq![first, second];
    let winner: int = if first.num_samples > second.num_samples {
        0
    } else {
        1
    };
    assert(configs[winner].satisfies(request));
    assert(is_best(configs, request, winner));
    lemma_best_is_unique(configs, request, winner, best_index(configs, request));
}

/// No configuration that satisfies the request has more samples than the
/// selected one.
pub proof fn lemma_selected_has_most_samples(
    configs: Seq<ConfigInfo>,
    request: FormatRequest,
    other: int,
)
    requires
        configs.len() <= usize::MAX,
        0 <= other < configs.len(),
        configs[other].satisfies(request),
    ensures
        spec_select_config(configs, request) matches Ok(index) && index < configs.len()
            && configs[index as int].satisfies(request) && configs[other].num_samples
            <= configs[index as int].num_samples,
{
    lemma_best_index_is_best(configs, request);
}

/// A request for sRGB never selects a configuration that is not
/// sRGB-capable.
pub proof fn lemma_srgb_request_selects_srgb_capable(
    configs: Seq<ConfigInfo>,
    request: FormatRequest,
)
    requires
        configs.len() <= usize::MAX,
        request.srgb,
    ensures
        spec_select_config(configs, request) matches Ok(index) ==> index < configs.len()
            && configs[index as int].srgb_capable,
{
    if any_suitable(configs, request) {
        lemma_best_index_is_best(configs, request);
    }
}

/// Where no configuration satisfies the request the negotiation fails: an
/// empty list is reported as such, any other as offering nothing suitable.
/// No index comes back.
pub proof fn lemma_nothing_suitable_fails(configs: Seq<ConfigInfo>, request: FormatRequest)
    requires
        forall|i: int| 0 <= i < configs.len() ==> !(#[trigger] configs[i]).satisfies(request),
    ensures
        spec_select_config(configs, request) == Err::<usize, BuildError>(
            if configs.len() == 0 {
                BuildError::NoConfigs
            } else {
                BuildError::NoSuitableConfig
            },
        ),
{
}

/// In particular the negotiation fails where no configuration has the
/// requested sizes, whatever is requested of sRGB.
pub proof fn lemma_no_requested_sizes_fails(configs: Seq<ConfigInfo>, request: FormatRequest)
    requires
        forall|i: int|
            0 <= i < configs.len() ==> !(#[trigger] configs[i]).has_requested_sizes(request),
    ensures
        spec_select_config(configs, request) is Err,
{
    lemma_nothing_suitable_fails(configs, request);
}

} // verus!
