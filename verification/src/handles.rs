use vstd::prelude::*;

verus! {

/// A graphic handle that refers to a loaded graphic: neither the empty slot `0`
/// nor the failure value `-1`.
pub open spec fn is_loaded_handle(h: i32) -> bool {
    h != 0 && h != -1
}

/// The pairs (index, handle) of the loaded handles of `s`, in index order.
pub open spec fn loaded_entries(s: Seq<i32>) -> Seq<(usize, i32)>
    decreases s.len(),
{
    if s.len() == 0 {
        Seq::empty()
    } else {
        let prev = loaded_entries(s.drop_last());
        if is_loaded_handle(s.last()) {
            prev.push(((s.len() - 1) as usize, s.last()))
        } else {
            prev
        }
    }
}

/// The index and handle of every loaded graphic in `handles`, in index order.
pub fn graph_handle_to_index(handles: &Vec<i32>) -> (r: Vec<(usize, i32)>)
    ensures
        r@ == loaded_entries(handles@),
{
    let mut r: Vec<(usize, i32)> = Vec::new();
    let mut i: usize = 0;
    while i < handles.len()
        invariant
            i <= handles.len(),
            r@ == loaded_entries(handles@.subrange(0, i as int)),
        decreases handles.len() - i,
    {
        let h = handles[i];
        assert(handles@.subrange(0, i + 1).drop_last() =~= handles@.subrange(0, i as int));
        if h != 0 && h != -1 {
            r.push((i, h));
        }
        i = i + 1;
    }
    assert(handles@.subrange(0, handles.len() as int) =~= handles@);
    r
}

} // verus!
