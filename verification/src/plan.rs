//! Which features make up the state of each model, in the order they are queried.

use vstd::prelude::*;

use crate::command::Getter;
use crate::model::DeviceModel;

verus! {

/// The features that are queried for the state of `model`, in order. The MV7 has none: its state
/// is queried in the text protocol.
pub open spec fn state_plan(model: DeviceModel) -> Seq<Getter> {
    match model {
        DeviceModel::Mvx2u => mvx2u_plan(),
        DeviceModel::Mvx2uGen2 => mvx2u_gen2_plan(),
        DeviceModel::Mv6 => mv6_plan(),
        DeviceModel::Mv7 => Seq::empty(),
        DeviceModel::Mv7Plus => mv7_plus_plan(),
    }
}

/// The gains of the five equaliser bands.
pub open spec fn eq_band_gains() -> Seq<Getter> {
    Seq::new(5, |band: int| Getter::EqBandGain { band: band as usize })
}

/// The on/off switches of the five equaliser bands.
pub open spec fn eq_band_enables() -> Seq<Getter> {
    Seq::new(5, |band: int| Getter::EqBandEnable { band: band as usize })
}

/// The MVX2U: the configuration lock first, the equaliser bands last.
pub open spec fn mvx2u_plan() -> Seq<Getter> {
    seq![
        Getter::Lock,
        Getter::Gain,
        Getter::Mute,
        Getter::Phantom,
        Getter::Mode,
        Getter::AutoPosition,
        Getter::AutoTone,
        Getter::AutoGain,
        Getter::Mix,
        Getter::Hpf,
        Getter::Limiter,
        Getter::Compressor,
        Getter::EqEnable,
        Getter::DeviceName,
        Getter::FirmwareVersion,
        Getter::Serial,
    ] + eq_band_enables() + eq_band_gains()
}

/// The MVX2U Gen 2 has no configuration lock and no equaliser switches. It adds denoiser, popper
/// stopper, gain lock and tone.
pub open spec fn mvx2u_gen2_plan() -> Seq<Getter> {
    seq![
        Getter::Gain,
        Getter::Mute,
        Getter::Phantom,
        Getter::Mode,
        Getter::Mv6Mix,
        Getter::Hpf,
        Getter::Limiter,
        Getter::Compressor,
        Getter::Mv6Denoiser,
        Getter::Mv6PopperStopper,
        Getter::Mv6Tone,
        Getter::Mv6GainLock,
        Getter::DeviceName,
        Getter::FirmwareVersion,
        Getter::Serial,
    ] + eq_band_gains()
}

/// The MV6.
pub open spec fn mv6_plan() -> Seq<Getter> {
    seq![
        Getter::Gain,
        Getter::Mute,
        Getter::Hpf,
        Getter::Mode,
        Getter::Mv6Denoiser,
        Getter::Mv6PopperStopper,
        Getter::Mv6Tone,
        Getter::Mv6GainLock,
        Getter::Mv6Mix,
        Getter::Mv6MuteBtnDisable,
        Getter::DeviceName,
        Getter::FirmwareVersion,
        Getter::Serial,
    ]
}

/// The MV7+. The theme of the pulsing LED is missing: its address cannot be read. The playback
/// mix comes last, because its response is told apart by the request alone.
pub open spec fn mv7_plus_plan() -> Seq<Getter> {
    seq![
        Getter::Gain,
        Getter::Mute,
        Getter::Hpf,
        Getter::Mode,
        Getter::Limiter,
        Getter::Compressor,
        Getter::Mv6Denoiser,
        Getter::Mv6PopperStopper,
        Getter::Mv6Tone,
        Getter::Mv6MuteBtnDisable,
        Getter::Mv6Mix,
        Getter::Mv7ReverbOutput,
        Getter::Mv7ReverbType,
        Getter::Mv7ReverbIntensity,
        Getter::Mv7ReverbMonitor,
        Getter::Mv7LedBehavior,
        Getter::Mv7LedBrightness,
        Getter::Mv7LedLiveTheme,
        Getter::Mv7LedLiveEdge,
        Getter::Mv7LedLiveMiddle,
        Getter::Mv7LedLiveInterior,
        Getter::Mv7LedSolidColor,
        Getter::Mv7LedPulsingColor,
        Getter::Mv7LedSolidTheme,
        Getter::DeviceName,
        Getter::FirmwareVersion,
        Getter::Serial,
        Getter::Mv7PlaybackMix,
    ]
}

/// Appends the gains of the five equaliser bands.
fn fetch_eq_band_gains(plan: &mut Vec<Getter>)
    ensures
        final(plan)@ == old(plan)@ + eq_band_gains(),
{
    let mut band: usize = 0;
    while band < 5
        invariant
            band <= 5,
            plan@ == old(plan)@ + eq_band_gains().take(band as int),
        decreases 5 - band,
    {
        plan.push(Getter::EqBandGain { band });
        band = band + 1;
    }
    assert(eq_band_gains().take(5) =~= eq_band_gains());
}

/// Appends the on/off switches of the five equaliser bands.
fn fetch_eq_band_enables(plan: &mut Vec<Getter>)
    ensures
        final(plan)@ == old(plan)@ + eq_band_enables(),
{
    let mut band: usize = 0;
    while band < 5
        invariant
            band <= 5,
            plan@ == old(plan)@ + eq_band_enables().take(band as int),
        decreases 5 - band,
    {
        plan.push(Getter::EqBandEnable { band });
        band = band + 1;
    }
    assert(eq_band_enables().take(5) =~= eq_band_enables());
}

/// The state queries of the MVX2U.
pub fn get_state_mvx2u() -> (plan: Vec<Getter>)
    ensures
        plan@ == mvx2u_plan(),
{
    let mut plan = vec![
        Getter::Lock,
        Getter::Gain,
        Getter::Mute,
        Getter::Phantom,
        Getter::Mode,
        Getter::AutoPosition,
        Getter::AutoTone,
        Getter::AutoGain,
        Getter::Mix,
        Getter::Hpf,
        Getter::Limiter,
        Getter::Compressor,
        Getter::EqEnable,
        Getter::DeviceName,
        Getter::FirmwareVersion,
        Getter::Serial,
    ];
    fetch_eq_band_enables(&mut plan);
    fetch_eq_band_gains(&mut plan);
    plan
}

/// The state queries of the MVX2U Gen 2.
pub fn get_state_mvx2u_gen2() -> (plan: Vec<Getter>)
    ensures
        plan@ == mvx2u_gen2_plan(),
{
    let mut plan = vec![
        Getter::Gain,
        Getter::Mute,
        Getter::Phantom,
        Getter::Mode,
        Getter::Mv6Mix,
        Getter::Hpf,
        Getter::Limiter,
        Getter::Compressor,
        Getter::Mv6Denoiser,
        Getter::Mv6PopperStopper,
        Getter::Mv6Tone,
        Getter::Mv6GainLock,
        Getter::DeviceName,
        Getter::FirmwareVersion,
        Getter::Serial,
    ];
    fetch_eq_band_gains(&mut plan);
    plan
}

/// The state queries of the MV6.
pub fn get_state_mv6() -> (plan: Vec<Getter>)
    ensures
        plan@ == mv6_plan(),
{
    vec![
        Getter::Gain,
        Getter::Mute,
        Getter::Hpf,
        Getter::Mode,
        Getter::Mv6Denoiser,
        Getter::Mv6PopperStopper,
        Getter::Mv6Tone,
        Getter::Mv6GainLock,
        Getter::Mv6Mix,
        Getter::Mv6MuteBtnDisable,
        Getter::DeviceName,
        Getter::FirmwareVersion,
        Getter::Serial,
    ]
}

/// The state queries of the MV7+.
pub fn get_state_mv7_plus() -> (plan: Vec<Getter>)
    ensures
        plan@ == mv7_plus_plan(),
{
    vec![
        Getter::Gain,
        Getter::Mute,
        Getter::Hpf,
        Getter::Mode,
        Getter::Limiter,
        Getter::Compressor,
        Getter::Mv6Denoiser,
        Getter::Mv6PopperStopper,
        Getter::Mv6Tone,
        Getter::Mv6MuteBtnDisable,
        Getter::Mv6Mix,
        Getter::Mv7ReverbOutput,
        Getter::Mv7ReverbType,
        Getter::Mv7ReverbIntensity,
        Getter::Mv7ReverbMonitor,
        Getter::Mv7LedBehavior,
        Getter::Mv7LedBrightness,
        Getter::Mv7LedLiveTheme,
        Getter::Mv7LedLiveEdge,
        Getter::Mv7LedLiveMiddle,
        Getter::Mv7LedLiveInterior,
        Getter::Mv7LedSolidColor,
        Getter::Mv7LedPulsingColor,
        Getter::Mv7LedSolidTheme,
        Getter::DeviceName,
        Getter::FirmwareVersion,
        Getter::Serial,
        Getter::Mv7PlaybackMix,
    ]
}

/// The state queries of `model`.
pub fn state_getters(model: DeviceModel) -> (plan: Vec<Getter>)
    ensures
        plan@ == state_plan(model),
{
    match model {
        DeviceModel::Mvx2u => get_state_mvx2u(),
        DeviceModel::Mvx2uGen2 => get_state_mvx2u_gen2(),
        DeviceModel::Mv6 => get_state_mv6(),
        DeviceModel::Mv7 => Vec::new(),
        DeviceModel::Mv7Plus => get_state_mv7_plus(),
    }
}

/// The state query at `index`, if there are as many.
pub fn state_getter(model: DeviceModel, index: usize) -> (getter: Option<Getter>)
    ensures
        getter == if index < state_plan(model).len() {
            Some(state_plan(model)[index as int])
        } else {
            None
        },
{
    let plan = state_getters(model);
    if index < plan.len() {
        Some(plan[index])
    } else {
        None
    }
}

/// No plan has more than twenty-eight queries.
pub proof fn lemma_plan_len(model: DeviceModel)
    ensures
        state_plan(model).len() <= 28,
{
}

/// The playback mix is queried on the MV7+ alone, once, and after everything else.
pub proof fn law_playback_mix_comes_last(model: DeviceModel, i: int)
    requires
        0 <= i < state_plan(model).len(),
    ensures
        state_plan(model)[i] == Getter::Mv7PlaybackMix <==> model is Mv7Plus && i
            == state_plan(model).len() - 1,
{
}

/// No feature is queried twice.
pub proof fn law_no_feature_queried_twice(model: DeviceModel, i: int, j: int)
    requires
        0 <= i < j < state_plan(model).len(),
    ensures
        state_plan(model)[i] != state_plan(model)[j],
{
}

/// One of four places, by the model. The MV7 has none.
pub open spec fn by_model(
    model: DeviceModel,
    mvx2u: Option<nat>,
    gen2: Option<nat>,
    mv6: Option<nat>,
    mv7_plus: Option<nat>,
) -> Option<nat> {
    match model {
        DeviceModel::Mvx2u => mvx2u,
        DeviceModel::Mvx2uGen2 => gen2,
        DeviceModel::Mv6 => mv6,
        DeviceModel::Mv7 => None,
        DeviceModel::Mv7Plus => mv7_plus,
    }
}

/// How many queries come before that of a feature, on a model that has it: on the MVX2U, the
/// MVX2U Gen 2, the MV6 and the MV7+.
pub open spec fn place(model: DeviceModel, getter: Getter) -> Option<nat> {
    match getter {
        Getter::Lock => by_model(model, Some(0), None, None, None),
        Getter::Gain => by_model(model, Some(1), Some(0), Some(0), Some(0)),
        Getter::Mute => by_model(model, Some(2), Some(1), Some(1), Some(1)),
        Getter::Phantom => by_model(model, Some(3), Some(2), None, None),
        Getter::Mode => by_model(model, Some(4), Some(3), Some(3), Some(3)),
        Getter::AutoPosition => by_model(model, Some(5), None, None, None),
        Getter::AutoTone => by_model(model, Some(6), None, None, None),
        Getter::AutoGain => by_model(model, Some(7), None, None, None),
        Getter::Mix => by_model(model, Some(8), None, None, None),
        Getter::Hpf => by_model(model, Some(9), Some(5), Some(2), Some(2)),
        Getter::Limiter => by_model(model, Some(10), Some(6), None, Some(4)),
        Getter::Compressor => by_model(model, Some(11), Some(7), None, Some(5)),
        Getter::EqEnable => by_model(model, Some(12), None, None, None),
        Getter::EqBandEnable { band } => if band < 5 {
            by_model(model, Some(16 + band as nat), None, None, None)
        } else {
            None
        },
        Getter::EqBandGain { band } => if band < 5 {
            by_model(model, Some(21 + band as nat), Some(15 + band as nat), None, None)
        } else {
            None
        },
        Getter::DeviceName => by_model(model, Some(13), Some(12), Some(10), Some(24)),
        Getter::FirmwareVersion => by_model(model, Some(14), Some(13), Some(11), Some(25)),
        Getter::Serial => by_model(model, Some(15), Some(14), Some(12), Some(26)),
        Getter::Mv6Denoiser => by_model(model, None, Some(8), Some(4), Some(6)),
        Getter::Mv6PopperStopper => by_model(model, None, Some(9), Some(5), Some(7)),
        Getter::Mv6Tone => by_model(model, None, Some(10), Some(6), Some(8)),
        Getter::Mv6GainLock => by_model(model, None, Some(11), Some(7), None),
        Getter::Mv6Mix => by_model(model, None, Some(4), Some(8), Some(10)),
        Getter::Mv6MuteBtnDisable => by_model(model, None, None, Some(9), Some(9)),
        Getter::Mv7ReverbOutput => by_model(model, None, None, None, Some(11)),
        Getter::Mv7ReverbType => by_model(model, None, None, None, Some(12)),
        Getter::Mv7ReverbIntensity => by_model(model, None, None, None, Some(13)),
        Getter::Mv7ReverbMonitor => by_model(model, None, None, None, Some(14)),
        Getter::Mv7LedBehavior => by_model(model, None, None, None, Some(15)),
        Getter::Mv7LedBrightness => by_model(model, None, None, None, Some(16)),
        Getter::Mv7LedLiveTheme => by_model(model, None, None, None, Some(17)),
        Getter::Mv7LedLiveEdge => by_model(model, None, None, None, Some(18)),
        Getter::Mv7LedLiveMiddle => by_model(model, None, None, None, Some(19)),
        Getter::Mv7LedLiveInterior => by_model(model, None, None, None, Some(20)),
        Getter::Mv7LedSolidColor => by_model(model, None, None, None, Some(21)),
        Getter::Mv7LedPulsingColor => by_model(model, None, None, None, Some(22)),
        Getter::Mv7LedSolidTheme => by_model(model, None, None, None, Some(23)),
        Getter::Mv7PlaybackMix => by_model(model, None, None, None, Some(27)),
    }
}

/// The state of a model is made up of the features that it has, each queried at its place, and of
/// no others.
pub proof fn law_every_feature_has_its_place(
    model: DeviceModel,
    getter: Getter,
    plan: Vec<Getter>,
    i: int,
)
    requires
        call_ensures(state_getters, (model,), plan),
    ensures
        0 <= i < plan@.len() ==> place(model, plan@[i]) == Some(i as nat),
        place(model, getter) matches Some(k) ==> k < plan@.len() && plan@[k as int] == getter,
        plan@.contains(getter) <==> place(model, getter) is Some,
{
    assert(plan@ == state_plan(model));
    assert forall|k: int| 0 <= k < plan@.len() implies place(model, #[trigger] plan@[k]) == Some(
        k as nat,
    ) by {
        lemma_place(model, getter, k);
    }
    lemma_place(model, getter, i);
}

/// Features and places in a plan belong together.
pub(crate) proof fn lemma_place(model: DeviceModel, getter: Getter, i: int)
    ensures
        0 <= i < state_plan(model).len() ==> place(model, state_plan(model)[i]) == Some(i as nat),
        place(model, getter) matches Some(k) ==> k < state_plan(model).len() && state_plan(
            model,
        )[k as int] == getter,
{
}

/// The plans of the models one by one are those that `state_getters` and `state_getter` give.
pub proof fn law_plans_agree(
    model: DeviceModel,
    index: usize,
    plan: Vec<Getter>,
    own: Vec<Getter>,
    getter: Option<Getter>,
)
    requires
        call_ensures(state_getters, (model,), plan),
        match model {
            DeviceModel::Mvx2u => call_ensures(get_state_mvx2u, (), own),
            DeviceModel::Mvx2uGen2 => call_ensures(get_state_mvx2u_gen2, (), own),
            DeviceModel::Mv6 => call_ensures(get_state_mv6, (), own),
            DeviceModel::Mv7 => own@.len() == 0,
            DeviceModel::Mv7Plus => call_ensures(get_state_mv7_plus, (), own),
        },
        call_ensures(state_getter, (model, index), getter),
    ensures
        own@ == plan@,
        getter is Some <==> index < plan@.len(),
        getter is Some ==> getter->0 == plan@[index as int],
{
}

/// What the models have in common and what tells them apart, feature by feature.
pub proof fn law_features_of_each_model(model: DeviceModel, band: usize, plan: Vec<Getter>)
    requires
        call_ensures(state_getters, (model,), plan),
    ensures
        model !is Mv7 ==> {
            &&& plan@.contains(Getter::Gain)
            &&& plan@.contains(Getter::Mute)
            &&& plan@.contains(Getter::Mode)
            &&& plan@.contains(Getter::Hpf)
            &&& plan@.contains(Getter::DeviceName)
            &&& plan@.contains(Getter::FirmwareVersion)
            &&& plan@.contains(Getter::Serial)
        },
        model is Mv7 ==> plan@.len() == 0,
        plan@.contains(Getter::Mix) <==> model is Mvx2u,
        plan@.contains(Getter::Mv6Mix) <==> model !is Mvx2u && model !is Mv7,
        plan@.contains(Getter::Phantom) <==> model is Mvx2u || model is Mvx2uGen2,
        plan@.contains(Getter::EqBandGain { band }) <==> band < 5 && (model is Mvx2u
            || model is Mvx2uGen2),
        plan@.contains(Getter::Lock) <==> model is Mvx2u,
        plan@.contains(Getter::EqEnable) <==> model is Mvx2u,
        plan@.contains(Getter::EqBandEnable { band }) <==> band < 5 && model is Mvx2u,
        plan@.contains(Getter::AutoPosition) <==> model is Mvx2u,
        plan@.contains(Getter::AutoTone) <==> model is Mvx2u,
        plan@.contains(Getter::AutoGain) <==> model is Mvx2u,
        plan@.contains(Getter::Limiter) <==> model !is Mv6 && model !is Mv7,
        plan@.contains(Getter::Compressor) <==> model !is Mv6 && model !is Mv7,
        plan@.contains(Getter::Mv6Denoiser) <==> model !is Mvx2u && model !is Mv7,
        plan@.contains(Getter::Mv6PopperStopper) <==> model !is Mvx2u && model !is Mv7,
        plan@.contains(Getter::Mv6Tone) <==> model !is Mvx2u && model !is Mv7,
        plan@.contains(Getter::Mv6GainLock) <==> model is Mvx2uGen2 || model is Mv6,
        plan@.contains(Getter::Mv6MuteBtnDisable) <==> model is Mv6 || model is Mv7Plus,
        plan@.contains(Getter::Mv7ReverbOutput) <==> model is Mv7Plus,
        plan@.contains(Getter::Mv7ReverbType) <==> model is Mv7Plus,
        plan@.contains(Getter::Mv7ReverbIntensity) <==> model is Mv7Plus,
        plan@.contains(Getter::Mv7ReverbMonitor) <==> model is Mv7Plus,
        plan@.contains(Getter::Mv7LedBehavior) <==> model is Mv7Plus,
        plan@.contains(Getter::Mv7LedBrightness) <==> model is Mv7Plus,
        plan@.contains(Getter::Mv7LedLiveTheme) <==> model is Mv7Plus,
        plan@.contains(Getter::Mv7LedLiveEdge) <==> model is Mv7Plus,
        plan@.contains(Getter::Mv7LedLiveMiddle) <==> model is Mv7Plus,
        plan@.contains(Getter::Mv7LedLiveInterior) <==> model is Mv7Plus,
        plan@.contains(Getter::Mv7LedSolidColor) <==> model is Mv7Plus,
        plan@.contains(Getter::Mv7LedPulsingColor) <==> model is Mv7Plus,
        plan@.contains(Getter::Mv7LedSolidTheme) <==> model is Mv7Plus,
        plan@.contains(Getter::Mv7PlaybackMix) <==> model is Mv7Plus,
{
    assert forall|getter: Getter| #[trigger]
        plan@.contains(getter) <==> place(model, getter) is Some by {
        law_every_feature_has_its_place(model, getter, plan, 0);
    }
}

/// The order of the queries: the configuration lock before everything else, then gain and mute,
/// name, firmware version and serial number one after the other, and the equaliser bands in
/// ascending order, their switches before their gains.
pub proof fn law_order_of_the_queries(
    model: DeviceModel,
    plan: Vec<Getter>,
    i: int,
    j: int,
    a: usize,
    b: usize,
)
    requires
        call_ensures(state_getters, (model,), plan),
        0 <= i < plan@.len(),
        0 <= j < plan@.len(),
    ensures
        model is Mvx2u ==> plan@[0] == Getter::Lock && plan@[1] == Getter::Gain && plan@[2]
            == Getter::Mute,
        model !is Mvx2u ==> plan@[0] == Getter::Gain && plan@[1] == Getter::Mute,
        plan@[i] == Getter::DeviceName && plan@[j] == Getter::FirmwareVersion ==> j == i + 1,
        plan@[i] == Getter::FirmwareVersion && plan@[j] == Getter::Serial ==> j == i + 1,
        plan@[i] == (Getter::EqBandGain { band: a }) && plan@[j] == (Getter::EqBandGain {
            band: b,
        }) ==> j - i == b - a,
        plan@[i] == (Getter::EqBandEnable { band: a }) && plan@[j] == (Getter::EqBandEnable {
            band: b,
        }) ==> j - i == b - a,
        plan@[i] == Getter::Serial && (plan@[j] is EqBandEnable || plan@[j] is EqBandGain)
            ==> i < j,
        plan@[i] is EqBandEnable && plan@[j] is EqBandGain ==> i < j,
        plan@[i] == Getter::Mv7PlaybackMix && j != i ==> j < i,
{
    law_every_feature_has_its_place(model, plan@[i], plan, i);
    law_every_feature_has_its_place(model, plan@[j], plan, j);
}

} // verus!
