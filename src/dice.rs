use vstd::prelude::*;

verus! {

#[verifier::external_type_specification]
#[verifier::external_body]
pub struct ExThreadRng(rand::rngs::ThreadRng);

/// Relies on rand::thread_rng: a handle on the thread-local generator.
#[verifier::external_body]
fn new_rng() -> (r: rand::rngs::ThreadRng) {
    rand::thread_rng()
}

/// Relies on rand::Rng::gen_range: a value drawn from `low` up to but not
/// including `high`; it panics where `low >= high`, which `requires` rules out.
#[verifier::external_body]
fn draw_in_range(rng: &mut rand::rngs::ThreadRng, low: u32, high: u32) -> (r: u32)
    requires
        low < high,
    ensures
        low <= r < high,
{
    rand::Rng::gen_range(rng, low, high)
}

/// Rolls a die with `sides` faces: a random value from 1 to `sides`.
pub fn roll_dice(sides: u16) -> (r: u16)
    requires
        sides >= 1,
    ensures
        1 <= r <= sides,
{
    let mut rng = new_rng();
    let v = draw_in_range(&mut rng, 1, sides as u32 + 1);
    v as u16
}

} // verus!
