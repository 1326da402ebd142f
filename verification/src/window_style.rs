use vstd::prelude::*;

verus! {

/// The extended style to write back so that the window keeps the tool-window
/// bit `toolwindow_bit`, given the style `current` read from the window.
/// A `current` of 0 means the read failed, and nothing is written then; nothing
/// is written either when the bit is already set.
pub open spec fn toolwindow_update_spec(current: isize, toolwindow_bit: isize) -> Option<isize> {
    if current != 0 && current & toolwindow_bit == 0 {
        Some(current | toolwindow_bit)
    } else {
        None
    }
}

/// Decide the read-modify-write that keeps a window out of Alt-Tab: `Some`
/// of the new extended style when the tool-window bit is missing from the
/// style `current` read from the window, `None` when no write is needed.
pub fn toolwindow_style_update(current: isize, toolwindow_bit: isize) -> (r: Option<isize>)
    ensures
        r == toolwindow_update_spec(current, toolwindow_bit),
{
    if current != 0 && (current & toolwindow_bit) == 0 {
        Some(current | toolwindow_bit)
    } else {
        None
    }
}

/// A write sets the tool-window bit and leaves every other bit as it was.
pub proof fn lemma_toolwindow_update_only_adds_bit(current: isize, toolwindow_bit: isize)
    ensures
        toolwindow_update_spec(current, toolwindow_bit) matches Some(n) ==> {
            &&& n & toolwindow_bit == toolwindow_bit
            &&& n & !toolwindow_bit == current & !toolwindow_bit
        },
{
    assert((current | toolwindow_bit) & toolwindow_bit == toolwindow_bit) by (bit_vector);
    assert((current | toolwindow_bit) & !toolwindow_bit == current & !toolwindow_bit)
        by (bit_vector);
}

/// Once the style has been written, the next tick finds the bit set and
/// writes nothing: the write fires only while the bit is missing.
pub proof fn lemma_toolwindow_update_settles(current: isize, toolwindow_bit: isize)
    requires
        toolwindow_bit != 0,
    ensures
        toolwindow_update_spec(current, toolwindow_bit) matches Some(n)
            ==> toolwindow_update_spec(n, toolwindow_bit) is None,
{
    assert(toolwindow_bit != 0 ==> (current | toolwindow_bit) & toolwindow_bit != 0)
        by (bit_vector);
}

/// The write happens exactly when the style was read (non-zero) and lacks the
/// tool-window bit, and then it is the read style with that bit added, for
/// every other bit pattern of the style.
pub proof fn lemma_toolwindow_update_exact(current: isize, toolwindow_bit: isize)
    ensures
        current != 0 && current & toolwindow_bit == 0 ==> toolwindow_update_spec(
            current,
            toolwindow_bit,
        ) == Some(current | toolwindow_bit),
        current == 0 || current & toolwindow_bit != 0 ==> toolwindow_update_spec(
            current,
            toolwindow_bit,
        ) is None,
{
}

} // verus!
