//! One-time lighting and material fixups applied after the scene has loaded.
use vstd::prelude::*;

use crate::fixed::{clamp_i64, mul_micro, mul_micro_spec, saturate_i64};
use crate::names::{chars_of, starts_with_chars, starts_with_seq};

verus! {

/// The name prefix of torch meshes, which must not cast shadows.
pub open spec fn torch_tag() -> Seq<char> {
    seq!['T', 'o', 'r', 'c', 'h', 'C', 'y', 'l', 'i', 'n', 'd', 'e', 'r']
}

/// The number of lights in `shadows` that do not cast shadows.
pub open spec fn count_unshadowed(shadows: Seq<bool>) -> nat
    decreases shadows.len(),
{
    if shadows.len() == 0 {
        0
    } else {
        count_unshadowed(shadows.drop_last()) + if shadows.last() {
            0nat
        } else {
            1nat
        }
    }
}

/// Turns on the shadow flag of every light, given as its shadow flag; returns
/// how many lights had it off.
pub fn fix_scene_point_lights(shadows: &mut Vec<bool>) -> (r: usize)
    ensures
        final(shadows)@.len() == old(shadows)@.len(),
        forall|i: int| 0 <= i < final(shadows)@.len() ==> #[trigger] final(shadows)@[i],
        r == count_unshadowed(old(shadows)@),
{
    let ghost initial = shadows@;
    let n = shadows.len();
    let mut count: usize = 0;
    let mut i: usize = 0;
    while i < n
        invariant
            n == initial.len(),
            shadows@.len() == n,
            i <= n,
            forall|k: int| 0 <= k < i ==> #[trigger] shadows@[k],
            forall|k: int| i <= k < n ==> #[trigger] shadows@[k] == initial[k],
            count == count_unshadowed(initial.subrange(0, i as int)),
            count <= i,
        decreases n - i,
    {
        let ghost after = initial.subrange(0, i + 1);
        assert(after.drop_last() =~= initial.subrange(0, i as int));
        if !shadows[i] {
            shadows.set(i, true);
            count += 1;
        }
        i += 1;
    }
    assert(initial.subrange(0, n as int) =~= initial);
    count
}

/// Whether a node with this name is a torch mesh.
pub fn is_torch(name: &str) -> (r: bool)
    ensures
        r == starts_with_seq(name@, torch_tag()),
{
    let chars = chars_of(name);
    let tag: Vec<char> = vec!['T', 'o', 'r', 'c', 'h', 'C', 'y', 'l', 'i', 'n', 'd', 'e', 'r'];
    assert(tag@ =~= torch_tag());
    starts_with_chars(&chars, &tag)
}

/// Marks the nodes, given by name, that are to be kept from casting shadows:
/// exactly the torch meshes.
pub fn fix_scene_torches(names: &Vec<String>) -> (r: Vec<bool>)
    ensures
        r@.len() == names@.len(),
        forall|i: int|
            0 <= i < names@.len() ==> #[trigger] r@[i] == starts_with_seq(
                names@[i]@,
                torch_tag(),
            ),
{
    let n = names.len();
    let mut marks: Vec<bool> = Vec::new();
    let mut i: usize = 0;
    while i < n
        invariant
            n == names@.len(),
            i <= n,
            marks@.len() == i,
            forall|k: int|
                0 <= k < i ==> #[trigger] marks@[k] == starts_with_seq(names@[k]@, torch_tag()),
        decreases n - i,
    {
        marks.push(is_torch(names[i].as_str()));
        i += 1;
    }
    marks
}

/// An emissive colour in linear RGB, each channel in millionths.
#[derive(Clone, Copy, Debug, PartialEq, Eq, Structural)]
pub struct Emissive {
    pub r: i64,
    pub g: i64,
    pub b: i64,
}

pub open spec fn is_emissive(e: Emissive) -> bool {
    e.r != 0 || e.g != 0 || e.b != 0
}

/// Channel `c` multiplied by `scale` (in millionths), rounded down and
/// saturated.
pub open spec fn scale_channel(c: i64, scale: i64) -> i64 {
    clamp_i64(mul_micro_spec(c as int, scale as int))
}

/// The colour after the fixup: a non-zero colour has each channel multiplied
/// by `scale`; black is left as it is.
pub open spec fn fixed_emissive(e: Emissive, scale: i64) -> Emissive {
    if is_emissive(e) {
        Emissive {
            r: scale_channel(e.r, scale),
            g: scale_channel(e.g, scale),
            b: scale_channel(e.b, scale),
        }
    } else {
        e
    }
}

/// The number of non-zero colours in `materials`.
pub open spec fn count_emissive(materials: Seq<Emissive>) -> nat
    decreases materials.len(),
{
    if materials.len() == 0 {
        0
    } else {
        count_emissive(materials.drop_last()) + if is_emissive(materials.last()) {
            1nat
        } else {
            0nat
        }
    }
}

fn scale_channel_exec(c: i64, scale: i64) -> (r: i64)
    ensures
        r == scale_channel(c, scale),
{
    saturate_i64(mul_micro(c, scale))
}

/// Multiplies every non-zero emissive colour by `scale`, given in millionths,
/// pushing it into the range the bloom pass picks up; black materials are not
/// touched. Returns how many materials were scaled.
pub fn fix_scene_emissive_materials(materials: &mut Vec<Emissive>, scale: i64) -> (r: usize)
    ensures
        final(materials)@.len() == old(materials)@.len(),
        forall|i: int|
            0 <= i < old(materials)@.len() ==> #[trigger] final(materials)@[i] == fixed_emissive(
                old(materials)@[i],
                scale,
            ),
        r == count_emissive(old(materials)@),
{
    let ghost initial = materials@;
    let n = materials.len();
    let mut count: usize = 0;
    let mut i: usize = 0;
    while i < n
        invariant
            n == initial.len(),
            materials@.len() == n,
            i <= n,
            count <= i,
            count == count_emissive(initial.subrange(0, i as int)),
            forall|k: int| 0 <= k < i ==> #[trigger] materials@[k] == fixed_emissive(initial[k], scale),
            forall|k: int| i <= k < n ==> #[trigger] materials@[k] == initial[k],
        decreases n - i,
    {
        let ghost after = initial.subrange(0, i + 1);
        assert(after.drop_last() =~= initial.subrange(0, i as int));
        let e = materials[i];
        if e.r != 0 || e.g != 0 || e.b != 0 {
            let scaled = Emissive {
                r: scale_channel_exec(e.r, scale),
                g: scale_channel_exec(e.g, scale),
                b: scale_channel_exec(e.b, scale),
            };
            materials.set(i, scaled);
            count += 1;
        }
        i += 1;
    }
    assert(initial.subrange(0, n as int) =~= initial);
    count
}

/// Black materials are left unchanged by the fixup, and a non-zero colour is
/// scaled channel by channel by exactly the factor; with the one-time claim of
/// the lighting pass this happens once per scene.
pub proof fn lemma_emissive_fixup(e: Emissive, scale: i64)
    ensures
        !is_emissive(e) ==> fixed_emissive(e, scale) == e,
        is_emissive(e) ==> fixed_emissive(e, scale).r == clamp_i64((e.r * scale) / 1_000_000int),
        is_emissive(e) ==> fixed_emissive(e, scale).g == clamp_i64((e.g * scale) / 1_000_000int),
        is_emissive(e) ==> fixed_emissive(e, scale).b == clamp_i64((e.b * scale) / 1_000_000int),
{
}

} // verus!
