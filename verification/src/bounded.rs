//! Fixed-capacity strings and vectors of the `heapless` crate, as the
//! configuration and the scheduler use them.
//!
//! Each instantiation has a name for its contents and small wrappers whose
//! contracts restate what the `heapless` source does: `new` is empty,
//! `push` appends unless the vector is full, `clear` empties it, and
//! `as_slice` hands out exactly the stored items.

use vstd::prelude::*;
use vstd::string::StrSliceExecFns;

use crate::config::hardware::{
    AcMotorHwConfig, DcMotorHwConfig, HeaterHwConfig, StepperHwConfig, Tmc2209HwConfig,
};
use crate::config::types::{HeaterConfig, JarConfig, ProfileConfig, ProgramConfig, ProgramStep};
use crate::heater::autotune::Peak;
use crate::scheduler::segment::Segment;

verus! {

#[verifier::external_type_specification]
#[verifier::external_body]
#[verifier::reject_recursive_types(T)]
pub struct ExHeaplessVec<T, const N: usize>(heapless::Vec<T, N>);

#[verifier::external_type_specification]
#[verifier::external_body]
pub struct ExHeaplessString<const N: usize>(heapless::String<N>);

/// Maximum label length
pub const MAX_LABEL_LEN: usize = 16;

// ---------------------------------------------------------------------
// Labels: `heapless::String<16>`
// ---------------------------------------------------------------------

/// The characters of a label.
pub uninterp spec fn label_text(s: heapless::String<16>) -> Seq<char>;

/// `heapless::String::new`: an empty label.
#[verifier::external_body]
pub(crate) fn label_new() -> (r: heapless::String<16>)
    ensures
        label_text(r) == Seq::<char>::empty(),
{
    heapless::String::new()
}

/// `heapless::String::as_str`: the label's text.
#[verifier::external_body]
pub(crate) fn label_as_str(s: &heapless::String<16>) -> (r: &str)
    ensures
        r@ == label_text(*s),
{
    s.as_str()
}

/// `heapless::String::clone`: a copy with the same text.
#[verifier::external_body]
pub(crate) fn label_clone(s: &heapless::String<16>) -> (r: heapless::String<16>)
    ensures
        label_text(r) == label_text(*s),
{
    s.clone()
}

/// A copy of an optional label.
pub(crate) fn opt_label_clone(s: &Option<heapless::String<16>>) -> (r: Option<heapless::String<16>>)
    ensures
        r is Some <==> s is Some,
        r is Some ==> label_text(r->0) == label_text(s->0),
{
    match s {
        Some(l) => Some(label_clone(l)),
        None => None,
    }
}

/// Character-wise equality of two strings.
pub(crate) fn text_eq(a: &str, b: &str) -> (r: bool)
    ensures
        r == (a@ == b@),
{
    let n = a.unicode_len();
    let m = b.unicode_len();
    if n != m {
        proof {
            if a@ == b@ {
                assert(a@.len() == b@.len());
            }
        }
        return false;
    }
    let mut i: usize = 0;
    while i < n
        invariant
            n == a@.len(),
            n == b@.len(),
            i <= n,
            forall|j: int| 0 <= j < i ==> a@[j] == b@[j],
        decreases n - i,
    {
        if a.get_char(i) != b.get_char(i) {
            return false;
        }
        i = i + 1;
    }
    proof {
        assert(a@ =~= b@);
    }
    true
}

/// Whether a label reads `name`.
pub(crate) fn label_is(label: &heapless::String<16>, name: &str) -> (r: bool)
    ensures
        r == (label_text(*label) == name@),
{
    text_eq(label_as_str(label), name)
}

// ---------------------------------------------------------------------
// Segment lists: `heapless::Vec<Segment, 16>`
// ---------------------------------------------------------------------

/// The segments held by a segment list.
pub uninterp spec fn segment_list(v: heapless::Vec<Segment, 16>) -> Seq<Segment>;

/// `heapless::Vec::new`: an empty segment list.
#[verifier::external_body]
pub(crate) fn segment_list_new() -> (r: heapless::Vec<Segment, 16>)
    ensures
        segment_list(r) == Seq::<Segment>::empty(),
{
    heapless::Vec::new()
}

/// `heapless::Vec::push`: appends unless the list already holds 16.
#[verifier::external_body]
pub(crate) fn segment_list_push(v: &mut heapless::Vec<Segment, 16>, s: Segment) -> (r: Result<(), Segment>)
    ensures
        r is Ok <==> segment_list(*old(v)).len() < 16,
        r is Ok ==> segment_list(*final(v)) == segment_list(*old(v)).push(s),
        r is Err ==> segment_list(*final(v)) == segment_list(*old(v)) && r->Err_0 == s,
{
    v.push(s)
}

/// `heapless::Vec::as_slice`: the stored segments, at most 16.
#[verifier::external_body]
pub(crate) fn segment_list_as_slice(v: &heapless::Vec<Segment, 16>) -> (r: &[Segment])
    ensures
        r@ == segment_list(*v),
        r@.len() <= 16,
{
    v.as_slice()
}

/// `heapless::Vec::clone`: a list with the same segments.
#[verifier::external_body]
pub(crate) fn segment_list_clone(v: &heapless::Vec<Segment, 16>) -> (r: heapless::Vec<Segment, 16>)
    ensures
        segment_list(r) == segment_list(*v),
{
    v.clone()
}

// ---------------------------------------------------------------------
// Profile lists: `heapless::Vec<ProfileConfig, 8>`
// ---------------------------------------------------------------------

/// The profiles held by a profile list.
pub uninterp spec fn profile_list(v: heapless::Vec<ProfileConfig, 8>) -> Seq<ProfileConfig>;

/// `heapless::Vec::new`: an empty profile list.
#[verifier::external_body]
pub(crate) fn profile_list_new() -> (r: heapless::Vec<ProfileConfig, 8>)
    ensures
        profile_list(r) == Seq::<ProfileConfig>::empty(),
{
    heapless::Vec::new()
}

/// `heapless::Vec::push`: appends unless the list already holds 8.
#[verifier::external_body]
pub(crate) fn profile_list_push(v: &mut heapless::Vec<ProfileConfig, 8>, p: ProfileConfig) -> (r: Result<(), ProfileConfig>)
    ensures
        r is Ok <==> profile_list(*old(v)).len() < 8,
        r is Ok ==> profile_list(*final(v)) == profile_list(*old(v)).push(p),
        r is Err ==> profile_list(*final(v)) == profile_list(*old(v)),
{
    v.push(p)
}

/// `heapless::Vec::clear`: empties the list.
#[verifier::external_body]
pub(crate) fn profile_list_clear(v: &mut heapless::Vec<ProfileConfig, 8>)
    ensures
        profile_list(*final(v)) == Seq::<ProfileConfig>::empty(),
{
    v.clear()
}

/// `heapless::Vec::as_slice`: the stored profiles, at most 8.
#[verifier::external_body]
pub(crate) fn profile_list_as_slice(v: &heapless::Vec<ProfileConfig, 8>) -> (r: &[ProfileConfig])
    ensures
        r@ == profile_list(*v),
        r@.len() <= 8,
{
    v.as_slice()
}

// ---------------------------------------------------------------------
// Jar lists: `heapless::Vec<JarConfig, 8>`
// ---------------------------------------------------------------------

/// The jars held by a jar list.
pub uninterp spec fn jar_list(v: heapless::Vec<JarConfig, 8>) -> Seq<JarConfig>;

/// `heapless::Vec::new`: an empty jar list.
#[verifier::external_body]
pub(crate) fn jar_list_new() -> (r: heapless::Vec<JarConfig, 8>)
    ensures
        jar_list(r) == Seq::<JarConfig>::empty(),
{
    heapless::Vec::new()
}

/// `heapless::Vec::push`: appends unless the list already holds 8.
#[verifier::external_body]
pub(crate) fn jar_list_push(v: &mut heapless::Vec<JarConfig, 8>, j: JarConfig) -> (r: Result<(), JarConfig>)
    ensures
        r is Ok <==> jar_list(*old(v)).len() < 8,
        r is Ok ==> jar_list(*final(v)) == jar_list(*old(v)).push(j),
        r is Err ==> jar_list(*final(v)) == jar_list(*old(v)),
{
    v.push(j)
}

/// `heapless::Vec::clear`: empties the list.
#[verifier::external_body]
pub(crate) fn jar_list_clear(v: &mut heapless::Vec<JarConfig, 8>)
    ensures
        jar_list(*final(v)) == Seq::<JarConfig>::empty(),
{
    v.clear()
}

/// `heapless::Vec::as_slice`: the stored jars, at most 8.
#[verifier::external_body]
pub(crate) fn jar_list_as_slice(v: &heapless::Vec<JarConfig, 8>) -> (r: &[JarConfig])
    ensures
        r@ == jar_list(*v),
        r@.len() <= 8,
{
    v.as_slice()
}

// ---------------------------------------------------------------------
// Program steps: `heapless::Vec<ProgramStep, 8>`
// ---------------------------------------------------------------------

/// The steps held by a step list.
pub uninterp spec fn step_list(v: heapless::Vec<ProgramStep, 8>) -> Seq<ProgramStep>;

/// `heapless::Vec::new`: an empty step list.
#[verifier::external_body]
pub(crate) fn step_list_new() -> (r: heapless::Vec<ProgramStep, 8>)
    ensures
        step_list(r) == Seq::<ProgramStep>::empty(),
{
    heapless::Vec::new()
}

/// `heapless::Vec::clone`: a list with steps of the same text.
#[verifier::external_body]
pub(crate) fn step_list_clone(v: &heapless::Vec<ProgramStep, 8>) -> (r: heapless::Vec<ProgramStep, 8>)
    ensures
        step_list(r).map_values(|s: ProgramStep| s@) == step_list(*v).map_values(|s: ProgramStep| s@),
{
    v.clone()
}

/// `heapless::Vec::as_slice`: the stored steps, at most 8.
#[verifier::external_body]
pub(crate) fn step_list_as_slice(v: &heapless::Vec<ProgramStep, 8>) -> (r: &[ProgramStep])
    ensures
        r@ == step_list(*v),
        r@.len() <= 8,
{
    v.as_slice()
}

// ---------------------------------------------------------------------
// `heapless::Vec<StepperHwConfig, 4>`
// ---------------------------------------------------------------------

/// The stepper configurations held by the list.
pub uninterp spec fn stepper_list(v: heapless::Vec<StepperHwConfig, 4>) -> Seq<StepperHwConfig>;

/// `heapless::Vec::new`: an empty list.
#[verifier::external_body]
pub(crate) fn stepper_list_new() -> (r: heapless::Vec<StepperHwConfig, 4>)
    ensures
        stepper_list(r) == Seq::<StepperHwConfig>::empty(),
{
    heapless::Vec::new()
}

/// `heapless::Vec::as_slice`: the stored stepper configurations, at most 4.
#[verifier::external_body]
pub(crate) fn stepper_list_as_slice(v: &heapless::Vec<StepperHwConfig, 4>) -> (r: &[StepperHwConfig])
    ensures
        r@ == stepper_list(*v),
        r@.len() <= 4,
{
    v.as_slice()
}

// ---------------------------------------------------------------------
// `heapless::Vec<Tmc2209HwConfig, 4>`
// ---------------------------------------------------------------------

/// The driver configurations held by the list.
pub uninterp spec fn tmc_list(v: heapless::Vec<Tmc2209HwConfig, 4>) -> Seq<Tmc2209HwConfig>;

/// `heapless::Vec::new`: an empty list.
#[verifier::external_body]
pub(crate) fn tmc_list_new() -> (r: heapless::Vec<Tmc2209HwConfig, 4>)
    ensures
        tmc_list(r) == Seq::<Tmc2209HwConfig>::empty(),
{
    heapless::Vec::new()
}

// ---------------------------------------------------------------------
// `heapless::Vec<DcMotorHwConfig, 4>`
// ---------------------------------------------------------------------

/// The DC motor configurations held by the list.
pub uninterp spec fn dc_motor_list(v: heapless::Vec<DcMotorHwConfig, 4>) -> Seq<DcMotorHwConfig>;

/// `heapless::Vec::new`: an empty list.
#[verifier::external_body]
pub(crate) fn dc_motor_list_new() -> (r: heapless::Vec<DcMotorHwConfig, 4>)
    ensures
        dc_motor_list(r) == Seq::<DcMotorHwConfig>::empty(),
{
    heapless::Vec::new()
}

/// `heapless::Vec::as_slice`: the stored DC motor configurations, at most 4.
#[verifier::external_body]
pub(crate) fn dc_motor_list_as_slice(v: &heapless::Vec<DcMotorHwConfig, 4>) -> (r: &[DcMotorHwConfig])
    ensures
        r@ == dc_motor_list(*v),
        r@.len() <= 4,
{
    v.as_slice()
}

// ---------------------------------------------------------------------
// `heapless::Vec<AcMotorHwConfig, 4>`
// ---------------------------------------------------------------------

/// The AC motor configurations held by the list.
pub uninterp spec fn ac_motor_list(v: heapless::Vec<AcMotorHwConfig, 4>) -> Seq<AcMotorHwConfig>;

/// `heapless::Vec::new`: an empty list.
#[verifier::external_body]
pub(crate) fn ac_motor_list_new() -> (r: heapless::Vec<AcMotorHwConfig, 4>)
    ensures
        ac_motor_list(r) == Seq::<AcMotorHwConfig>::empty(),
{
    heapless::Vec::new()
}

/// `heapless::Vec::as_slice`: the stored AC motor configurations, at most 4.
#[verifier::external_body]
pub(crate) fn ac_motor_list_as_slice(v: &heapless::Vec<AcMotorHwConfig, 4>) -> (r: &[AcMotorHwConfig])
    ensures
        r@ == ac_motor_list(*v),
        r@.len() <= 4,
{
    v.as_slice()
}

// ---------------------------------------------------------------------
// `heapless::Vec<HeaterHwConfig, 4>`
// ---------------------------------------------------------------------

/// The heater hardware configurations held by the list.
pub uninterp spec fn heater_hw_list(v: heapless::Vec<HeaterHwConfig, 4>) -> Seq<HeaterHwConfig>;

/// `heapless::Vec::new`: an empty list.
#[verifier::external_body]
pub(crate) fn heater_hw_list_new() -> (r: heapless::Vec<HeaterHwConfig, 4>)
    ensures
        heater_hw_list(r) == Seq::<HeaterHwConfig>::empty(),
{
    heapless::Vec::new()
}

// ---------------------------------------------------------------------
// `heapless::Vec<HeaterConfig, 4>`
// ---------------------------------------------------------------------

/// The heater configurations held by the list.
pub uninterp spec fn heater_list(v: heapless::Vec<HeaterConfig, 4>) -> Seq<HeaterConfig>;

/// `heapless::Vec::new`: an empty list.
#[verifier::external_body]
pub(crate) fn heater_list_new() -> (r: heapless::Vec<HeaterConfig, 4>)
    ensures
        heater_list(r) == Seq::<HeaterConfig>::empty(),
{
    heapless::Vec::new()
}

/// `heapless::Vec::as_slice`: the stored heater configurations, at most 4.
#[verifier::external_body]
pub(crate) fn heater_list_as_slice(v: &heapless::Vec<HeaterConfig, 4>) -> (r: &[HeaterConfig])
    ensures
        r@ == heater_list(*v),
        r@.len() <= 4,
{
    v.as_slice()
}

// ---------------------------------------------------------------------
// `heapless::Vec<ProgramConfig, 8>`
// ---------------------------------------------------------------------

/// The programs held by the list.
pub uninterp spec fn program_list(v: heapless::Vec<ProgramConfig, 8>) -> Seq<ProgramConfig>;

/// `heapless::Vec::new`: an empty list.
#[verifier::external_body]
pub(crate) fn program_list_new() -> (r: heapless::Vec<ProgramConfig, 8>)
    ensures
        program_list(r) == Seq::<ProgramConfig>::empty(),
{
    heapless::Vec::new()
}

/// `heapless::Vec::as_slice`: the stored programs, at most 8.
#[verifier::external_body]
pub(crate) fn program_list_as_slice(v: &heapless::Vec<ProgramConfig, 8>) -> (r: &[ProgramConfig])
    ensures
        r@ == program_list(*v),
        r@.len() <= 8,
{
    v.as_slice()
}

// ---------------------------------------------------------------------
// Peak lists: `heapless::Vec<Peak, 24>`
// ---------------------------------------------------------------------

/// The peaks held by a peak list.
pub uninterp spec fn peak_list(v: heapless::Vec<Peak, 24>) -> Seq<Peak>;

/// `heapless::Vec::new`: an empty peak list.
#[verifier::external_body]
pub(crate) fn peak_list_new() -> (r: heapless::Vec<Peak, 24>)
    ensures
        peak_list(r) == Seq::<Peak>::empty(),
{
    heapless::Vec::new()
}

/// `heapless::Vec::push`: appends unless the list already holds 24.
#[verifier::external_body]
pub(crate) fn peak_list_push(v: &mut heapless::Vec<Peak, 24>, p: Peak) -> (r: Result<(), Peak>)
    ensures
        r is Ok <==> peak_list(*old(v)).len() < 24,
        r is Ok ==> peak_list(*final(v)) == peak_list(*old(v)).push(p),
        r is Err ==> peak_list(*final(v)) == peak_list(*old(v)),
{
    v.push(p)
}

/// `heapless::Vec::clear`: empties the list.
#[verifier::external_body]
pub(crate) fn peak_list_clear(v: &mut heapless::Vec<Peak, 24>)
    ensures
        peak_list(*final(v)) == Seq::<Peak>::empty(),
{
    v.clear()
}

/// `heapless::Vec::as_slice`: the stored peaks, at most 24.
#[verifier::external_body]
pub(crate) fn peak_list_as_slice(v: &heapless::Vec<Peak, 24>) -> (r: &[Peak])
    ensures
        r@ == peak_list(*v),
        r@.len() <= 24,
{
    v.as_slice()
}

} // verus!
