//! The random noise field: one fixed-point sample in `[0, 65536)` per pixel.

use vstd::prelude::*;
use rand::RngExt;

verus! {

#[verifier::external_type_specification]
#[verifier::external_body]
pub struct ExThreadRng(rand::rngs::ThreadRng);

/// Relies on rand::rng: hands back the thread-local random generator.
#[verifier::external_body]
fn fresh_rng() -> rand::rngs::ThreadRng {
    rand::rng()
}

/// Relies on rand::RngExt::random_range: a uniform sample in the given
/// range. Nothing is promised of the value beyond the range itself.
#[verifier::external_body]
fn sample_unit(rng: &mut rand::rngs::ThreadRng) -> (r: i64)
    ensures
        0 <= r < 65536,
{
    rng.random_range(0..65536)
}

/// Appends `height` rows of `width` independent random samples, each in
/// `[0, 65536)`, to `noise`. Rows already present are left untouched.
pub fn generate_noise(width: u32, height: u32, noise: &mut Vec<Vec<i64>>)
    ensures
        final(noise)@.len() == old(noise)@.len() + height,
        forall|i: int| 0 <= i < old(noise)@.len() ==> final(noise)@[i] == old(noise)@[i],
        forall|i: int|
            old(noise)@.len() <= i < final(noise)@.len()
                ==> #[trigger] final(noise)@[i]@.len() == width,
        forall|i: int, j: int|
            old(noise)@.len() <= i < final(noise)@.len() && 0 <= j < width
                ==> 0 <= #[trigger] final(noise)@[i]@[j] < 65536,
{
    let mut rng = fresh_rng();
    let mut row: u32 = 0;
    while row < height
        invariant
            row <= height,
            noise@.len() == old(noise)@.len() + row,
            forall|i: int| 0 <= i < old(noise)@.len() ==> noise@[i] == old(noise)@[i],
            forall|i: int|
                old(noise)@.len() <= i < noise@.len() ==> #[trigger] noise@[i]@.len() == width,
            forall|i: int, j: int|
                old(noise)@.len() <= i < noise@.len() && 0 <= j < width
                    ==> 0 <= #[trigger] noise@[i]@[j] < 65536,
        decreases height - row,
    {
        let mut local_noise: Vec<i64> = Vec::new();
        let mut col: u32 = 0;
        while col < width
            invariant
                col <= width,
                local_noise@.len() == col,
                forall|j: int| 0 <= j < col ==> 0 <= #[trigger] local_noise@[j] < 65536,
            decreases width - col,
        {
            let r: i64 = sample_unit(&mut rng);
            local_noise.push(r);
            col = col + 1;
        }
        noise.push(local_noise);
        row = row + 1;
    }
}

} // verus!
