use vstd::prelude::*;

verus! {

/// An empty array with room set aside for `capacity` items.
pub fn vec_alloc<T>(capacity: usize) -> (vec: Vec<T>)
    ensures
        vec@ == Seq::<T>::empty(),
{
    Vec::with_capacity(capacity)
}

/// Appends `times` copies of `init`.
pub fn vec_push<T: Copy>(vec: &mut Vec<T>, init: T, times: usize)
    ensures
        final(vec)@ == old(vec)@ + Seq::new(times as nat, |i: int| init),
{
    let mut done: usize = 0;
    while done < times
        invariant
            done <= times,
            vec@ == old(vec)@ + Seq::new(done as nat, |i: int| init),
        decreases times - done,
    {
        vec.push(init);
        done += 1;
    }
}

/// Removes the last `times` items, or all of them where there are fewer.
pub fn vec_pop<T>(vec: &mut Vec<T>, times: usize)
    ensures
        times <= old(vec)@.len() ==> final(vec)@ == old(vec)@.take(old(vec)@.len() - times),
        times > old(vec)@.len() ==> final(vec)@ == Seq::<T>::empty(),
{
    let mut done: usize = 0;
    while done < times
        invariant
            done <= times,
            done <= old(vec)@.len() ==> vec@ == old(vec)@.take(old(vec)@.len() - done),
            done > old(vec)@.len() ==> vec@ == Seq::<T>::empty(),
        decreases times - done,
    {
        let _ = vec.pop();
        done += 1;
    }
}

} // verus!
