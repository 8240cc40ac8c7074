use vstd::prelude::*;

verus! {

/// The capacity that a dynamic buffer of capacity `current` grows to so that it
/// holds `required` elements: `current` doubled as often as needed, and no more.
pub open spec fn grown_size(current: nat, required: nat) -> nat
    decreases
            if required > current {
                required - current
            } else {
                0
            },
{
    if current == 0 || current >= required {
        current
    } else {
        grown_size(2 * current, required)
    }
}

/// `2^k`.
pub open spec fn pow2(k: nat) -> nat
    decreases k,
{
    if k == 0 {
        1
    } else {
        2 * pow2((k - 1) as nat)
    }
}

/// The largest element count that a buffer size may be asked for, so that
/// doubling a size still below it stays within `usize`.
pub open spec fn max_required_size() -> nat {
    usize::MAX as nat / 2 + 1
}

/// The size of the buffer that replaces one of `current_size` elements when
/// `required_size` elements must fit: the smallest `current_size * 2^k`
/// (`k >= 0`) that is at least `required_size`.
pub fn grow_buffer(current_size: usize, required_size: usize) -> (r: usize)
    requires
        current_size > 0,
        required_size <= max_required_size(),
    ensures
        r as nat == grown_size(current_size as nat, required_size as nat),
{
    let mut size: usize = current_size;
    while size < required_size
        invariant
            size > 0,
            required_size <= max_required_size(),
            grown_size(size as nat, required_size as nat) == grown_size(
                current_size as nat,
                required_size as nat,
            ),
        decreases
            if required_size > size {
                required_size - size
            } else {
                0
            },
    {
        size = size * 2;
    }
    size
}

/// The new capacity of a buffer of `capacity` elements that must hold
/// `required` elements: `None` where it already fits (no new buffer is made),
/// otherwise the grown size.
pub fn ensure_capacity(capacity: usize, required: usize) -> (r: Option<usize>)
    requires
        capacity > 0,
        required <= max_required_size(),
    ensures
        required <= capacity ==> r is None,
        required > capacity ==> r == Some(grown_size(capacity as nat, required as nat) as usize),
{
    if required <= capacity {
        None
    } else {
        Some(grow_buffer(capacity, required))
    }
}

/// Growth is minimal: the grown size holds `required` elements, is
/// `current * 2^k` for some `k`, and is either `current` itself or less than
/// twice `required`, so no smaller power-of-two multiple of `current` would do.
pub proof fn lemma_grown_size_minimal(current: nat, required: nat)
    requires
        current > 0,
    ensures
        grown_size(current, required) >= required,
        grown_size(current, required) >= current,
        exists|k: nat| grown_size(current, required) == current * #[trigger] pow2(k),
        grown_size(current, required) == current || grown_size(current, required) < 2 * required,
    decreases
            if required > current {
                required - current
            } else {
                0
            },
{
    if current >= required {
        assert(pow2(0) == 1);
        assert(current == current * pow2(0));
    } else {
        lemma_grown_size_minimal(2 * current, required);
        let k = choose|k: nat| grown_size(2 * current, required) == 2 * current * #[trigger] pow2(k);
        assert(pow2(k + 1) == 2 * pow2(k));
        assert(2 * current * pow2(k) == current * pow2(k + 1)) by (nonlinear_arith);
    }
}

/// Growth is monotonic: a larger requirement never yields a smaller buffer.
pub proof fn lemma_grown_size_monotonic(current: nat, required1: nat, required2: nat)
    requires
        current > 0,
        required1 <= required2,
    ensures
        grown_size(current, required1) <= grown_size(current, required2),
    decreases
            if required2 > current {
                required2 - current
            } else {
                0
            },
{
    if current >= required2 {
    } else if current >= required1 {
        lemma_grown_size_minimal(current, required2);
    } else {
        lemma_grown_size_monotonic(2 * current, required1, required2);
    }
}

/// Ensuring a capacity is idempotent: once a buffer has been grown for
/// `required` elements, asking again for `required` makes no new buffer and
/// keeps the size.
pub proof fn lemma_ensure_capacity_idempotent(capacity: nat, required: nat)
    requires
        capacity > 0,
    ensures
        grown_size(capacity, required) >= required,
        grown_size(grown_size(capacity, required), required) == grown_size(capacity, required),
{
    lemma_grown_size_minimal(capacity, required);
}

} // verus!
