use vstd::prelude::*;
use crate::accessor::AssocStatic;
use crate::carrier::MakeSync;

verus! {

/// Identity stability: whatever two calls of the accessor of one key return,
/// the two references hold the same contents.
pub proof fn lemma_identity_stable<O, T, TAG>(first: &T, second: &T) where O: AssocStatic<T, TAG>
    requires
        call_ensures(O::get_static, (), first),
        call_ensures(O::get_static, (), second),
    ensures
        *first == *second,
{
}

/// Tag independence: where one owner binds two values of one target type
/// under the tags `A` and `B`, the accessor under `A` yields the value bound
/// under `A` and the accessor under `B` the value bound under `B`; neither
/// depends on the other binding.
pub proof fn lemma_tag_independence<O, T, A, B>(under_a: &T, under_b: &T) where
    O: AssocStatic<T, A> + AssocStatic<T, B>,

    requires
        call_ensures(<O as AssocStatic<T, A>>::get_static, (), under_a),
        call_ensures(<O as AssocStatic<T, B>>::get_static, (), under_b),
    ensures
        *under_a == <O as AssocStatic<T, A>>::static_value(),
        *under_b == <O as AssocStatic<T, B>>::static_value(),
{
}

/// Owner independence: where two owners bind a value of one target type under
/// one tag, the accessor of each owner yields the value bound to that owner.
pub proof fn lemma_owner_independence<O1, O2, T, TAG>(of_first: &T, of_second: &T) where
    O1: AssocStatic<T, TAG>,
    O2: AssocStatic<T, TAG>,

    requires
        call_ensures(O1::get_static, (), of_first),
        call_ensures(O2::get_static, (), of_second),
    ensures
        *of_first == O1::static_value(),
        *of_second == O2::static_value(),
{
}

/// Instance/key equivalence: for any owner at hand, what the accessor by
/// instance returns holds the same contents as what the accessor by key
/// returns for the same key.
pub proof fn lemma_instance_matches_key<O, T, TAG>(owner: &O, by_instance: &T, by_key: &T) where
    O: AssocStatic<T, TAG>,

    requires
        call_ensures(O::from, (owner,), by_instance),
        call_ensures(O::get_static, (), by_key),
    ensures
        *by_instance == *by_key,
{
}

/// A carrier is never changed after it was made: any two reads of one
/// carrier hold the same contents, those it was made with.
pub proof fn lemma_carrier_reads_agree<T>(cell: &MakeSync<T>, first: &T, second: &T)
    requires
        call_ensures(MakeSync::<T>::get, (cell,), first),
        call_ensures(MakeSync::<T>::get, (cell,), second),
    ensures
        *first == cell@,
        *second == cell@,
{
}

} // verus!
