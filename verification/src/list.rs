//! Lists that are used up from the front.

use std::collections::VecDeque;
use vstd::prelude::*;

verus! {

/// The items of `items` as a queue, the first item at the front.
pub fn into_queue<T>(items: Vec<T>) -> (r: VecDeque<T>)
    ensures
        r@ == items@,
{
    let mut rest = items;
    let mut queue: VecDeque<T> = VecDeque::new();
    while rest.len() > 0
        invariant
            rest@ + queue@ == items@,
        decreases rest@.len(),
    {
        let ghost before = rest@;
        let ghost moved = queue@;
        match rest.pop() {
            Some(item) => {
                queue.push_front(item);
                assert(rest@ + queue@ =~= before + moved);
            },
            None => {},
        }
    }
    assert(queue@ =~= items@);
    queue
}

} // verus!
