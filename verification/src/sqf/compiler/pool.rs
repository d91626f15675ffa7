//! Pools: lists in which every value stands once, at the index it was given
//! when it was first seen, and which a 16-bit index can reach into.

use super::serializer::Pooled;
use super::{CompileError, CompileErrorView};
use crate::lists::{slot, slot_is_unique, views};
use vstd::prelude::*;

verus! {

/// What interning `value` into `pool` gives: the pool afterwards and the
/// index of the value in it. A value that the pool holds keeps its index and
/// leaves the pool as it is; a new one goes to the end. An index that does
/// not fit in 16 bits is an error.
pub open spec fn interned<V>(pool: Seq<V>, value: V) -> Result<(Seq<V>, u16), CompileErrorView> {
    let i = slot(pool, value);
    if i > u16::MAX {
        Err(CompileErrorView::ListTooLong)
    } else if i < pool.len() {
        Ok((pool, i as u16))
    } else {
        Ok((pool.push(value), i as u16))
    }
}

/// Gives the index of `value` in `collection`, adding it at the end where the
/// collection does not hold it yet. On an error the collection is left as it
/// was.
pub fn add_or_get_index<T: Pooled>(collection: &mut Vec<T>, value: T) -> (r: Result<
    u16,
    CompileError,
>)
    ensures
        match interned(views(old(collection)@), value@) {
            Ok((pool, index)) => r == Ok::<u16, CompileError>(index) && views(final(collection)@)
                == pool,
            Err(e) => r matches Err(f) && f@ == e && final(collection)@ == old(collection)@,
        },
{
    let ghost pool = views(collection@);
    let mut i: usize = 0;
    while i < collection.len()
        invariant
            i <= collection.len(),
            collection@ == old(collection)@,
            pool == views(collection@),
            forall|j: int| 0 <= j < i ==> pool[j] != value@,
        decreases collection.len() - i,
    {
        if collection[i].same(&value) {
            proof {
                slot_is_unique(pool, value@, i as int);
            }
            if i > 65535 {
                return Err(CompileError::ListTooLong);
            }
            return Ok(i as u16);
        }
        i += 1;
    }
    proof {
        slot_is_unique(pool, value@, i as int);
    }
    if i > 65535 {
        return Err(CompileError::ListTooLong);
    }
    collection.push(value);
    Ok(i as u16)
}

} // verus!
