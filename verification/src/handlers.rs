use crate::errors::{ErrorModel, KeyValueError};
use crate::store::Store;
use crate::util::push_bytes;
use vstd::prelude::*;

verus! {

/// The mathematical content of a handler result whose success carries bytes.
pub open spec fn spec_bytes_result(r: Result<Vec<u8>, KeyValueError>) -> Result<
    Seq<u8>,
    ErrorModel,
> {
    match r {
        Ok(v) => Ok(v@),
        Err(e) => Err(e@),
    }
}

/// The mathematical content of a handler result whose success carries nothing.
pub open spec fn spec_unit_result(r: Result<(), KeyValueError>) -> Result<(), ErrorModel> {
    match r {
        Ok(u) => Ok(u),
        Err(e) => Err(e@),
    }
}

/// What reading `k` from a store holding `m` yields: the stored bytes, or the
/// not-found failure naming the key.
pub open spec fn spec_get_value(m: Map<Seq<u8>, Seq<u8>>, k: Seq<u8>) -> Result<
    Seq<u8>,
    ErrorModel,
> {
    if m.contains_key(k) {
        Ok(m[k])
    } else {
        Err(ErrorModel::NotFound(k))
    }
}

/// What writing `v` under `k` leaves in a store holding `m`.
pub open spec fn spec_set_value(m: Map<Seq<u8>, Seq<u8>>, k: Seq<u8>, v: Seq<u8>) -> Map<
    Seq<u8>,
    Seq<u8>,
> {
    m.insert(k, v)
}

/// What deleting `k` leaves in a store holding `m`.
pub open spec fn spec_delete_one_map(m: Map<Seq<u8>, Seq<u8>>, k: Seq<u8>) -> Map<
    Seq<u8>,
    Seq<u8>,
> {
    m.remove(k)
}

/// What deleting `k` from a store holding `m` answers: success exactly when
/// the store held the key, the not-found failure otherwise.
pub open spec fn spec_delete_one(m: Map<Seq<u8>, Seq<u8>>, k: Seq<u8>) -> Result<
    (),
    ErrorModel,
> {
    if m.contains_key(k) {
        Ok(())
    } else {
        Err(ErrorModel::NotFound(k))
    }
}

/// The keys of an enumeration joined with single newlines, in order.
pub open spec fn spec_join_keys(keys: Seq<Seq<u8>>) -> Seq<u8>
    decreases keys.len(),
{
    if keys.len() == 0 {
        Seq::empty()
    } else if keys.len() == 1 {
        keys[0]
    } else {
        spec_join_keys(keys.drop_last()) + seq!['\n' as u8] + keys.last()
    }
}

/// Turns what the backing store answered to a read into the handler's result:
/// the raw bytes when the key was there, the not-found failure otherwise.
pub fn get_value_outcome(key: &Vec<u8>, fetched: Option<Vec<u8>>) -> (r: Result<
    Vec<u8>,
    KeyValueError,
>)
    ensures
        spec_bytes_result(r) == match fetched {
            Some(v) => Ok::<Seq<u8>, ErrorModel>(v@),
            None => Err::<Seq<u8>, ErrorModel>(ErrorModel::NotFound(key@)),
        },
{
    match fetched {
        Some(v) => Ok(v),
        None => Err(KeyValueError::NotFound(key.clone())),
    }
}

/// Turns the number of entries the backing store removed for a delete into
/// the handler's result: success when at least one went, the not-found
/// failure when none did.
pub fn delete_one_outcome(key: &Vec<u8>, removed: usize) -> (r: Result<(), KeyValueError>)
    ensures
        spec_unit_result(r) == if removed > 0 {
            Ok::<(), ErrorModel>(())
        } else {
            Err::<(), ErrorModel>(ErrorModel::NotFound(key@))
        },
{
    if removed > 0 {
        Ok(())
    } else {
        Err(KeyValueError::NotFound(key.clone()))
    }
}

/// Joins an enumeration's keys with newlines, in the order they were handed
/// out.
pub fn join_keys(keys: &Vec<Vec<u8>>) -> (r: Vec<u8>)
    ensures
        r@ == spec_join_keys(Seq::new(keys@.len(), |i: int| keys@[i]@)),
{
    let ghost ks = Seq::new(keys@.len(), |i: int| keys@[i]@);
    let mut r: Vec<u8> = Vec::new();
    let mut i: usize = 0;
    while i < keys.len()
        invariant
            i <= keys@.len(),
            ks == Seq::new(keys@.len(), |j: int| keys@[j]@),
            r@ == spec_join_keys(ks.take(i as int)),
        decreases keys.len() - i,
    {
        if i > 0 {
            r.push('\n' as u8);
        }
        push_bytes(&mut r, &keys[i]);
        proof {
            assert(ks.take(i + 1).drop_last() =~= ks.take(i as int));
            assert(ks.take(i + 1).last() == ks[i as int]);
            if i == 0 {
                assert(r@ =~= spec_join_keys(ks.take(i + 1)));
            } else {
                assert(r@ =~= spec_join_keys(ks.take(i as int)) + seq!['\n' as u8] + ks[i as int]);
            }
        }
        i += 1;
    }
    proof {
        assert(ks.take(keys@.len() as int) =~= ks);
    }
    r
}

/// Reads the value for `key`: the raw bytes with no content-type inference,
/// or the not-found failure if the store holds no entry for the key.
pub fn kv_get(store: &Store, key: &Vec<u8>) -> (r: Result<Vec<u8>, KeyValueError>)
    requires
        store.wf(),
    ensures
        spec_bytes_result(r) == spec_get_value(store@, key@),
{
    get_value_outcome(key, store.get(key))
}

/// Writes the body verbatim under `key`, overwriting any existing value. The
/// payload-size bound is enforced upstream, before the handler is reached.
pub fn kv_set(store: &mut Store, key: &Vec<u8>, value: &Vec<u8>) -> (r: Result<
    (),
    KeyValueError,
>)
    requires
        old(store).wf(),
    ensures
        final(store).wf(),
        final(store)@ == spec_set_value(old(store)@, key@, value@),
        r is Ok,
{
    store.set(key, value);
    Ok(())
}

/// Enumerates every key of the store, newline-joined and unordered: a full
/// scan, accepted to be linear in the number of keys.
pub fn list_keys(store: &Store) -> (r: Result<Vec<u8>, KeyValueError>)
    requires
        store.wf(),
    ensures
        r matches Ok(s) && s@ == spec_join_keys(store.key_seq()),
{
    let ks = store.keys();
    proof {
        assert(Seq::new(ks@.len(), |i: int| ks@[i]@) =~= store.key_seq());
    }
    Ok(join_keys(&ks))
}

/// Unconditionally clears every key of the store; never fails, also on a
/// store that is already empty.
pub fn delete_all(store: &mut Store) -> (r: Result<(), KeyValueError>)
    requires
        old(store).wf(),
    ensures
        final(store).wf(),
        final(store)@ == Map::<Seq<u8>, Seq<u8>>::empty(),
        r is Ok,
{
    store.flush_all();
    Ok(())
}

/// Deletes `key`: success when the store held it, the not-found failure when
/// it reported zero keys removed.
pub fn delete_one(store: &mut Store, key: &Vec<u8>) -> (r: Result<(), KeyValueError>)
    requires
        old(store).wf(),
    ensures
        final(store).wf(),
        final(store)@ == spec_delete_one_map(old(store)@, key@),
        spec_unit_result(r) == spec_delete_one(old(store)@, key@),
{
    let removed = store.del(key);
    delete_one_outcome(key, removed)
}

/// Writing a payload and then reading its key hands the payload back: for
/// every store contents, every key and every payload within the configured
/// size bound — the bound is what lets the write through the pipeline — a
/// write followed by a read of the same key yields exactly the bytes
/// written.
pub proof fn lemma_round_trip(m: Map<Seq<u8>, Seq<u8>>, k: Seq<u8>, v: Seq<u8>, limit: nat)
    requires
        v.len() <= limit,
    ensures
        spec_get_value(spec_set_value(m, k, v), k) == Ok::<Seq<u8>, ErrorModel>(v),
{
}

/// A key never written, or already deleted, yields the not-found failure from
/// both the read and the delete handler, and the failed delete leaves the
/// store as it was.
pub proof fn lemma_not_found(m: Map<Seq<u8>, Seq<u8>>, k: Seq<u8>)
    requires
        !m.contains_key(k),
    ensures
        spec_get_value(m, k) == Err::<Seq<u8>, ErrorModel>(ErrorModel::NotFound(k)),
        spec_delete_one(m, k) == Err::<(), ErrorModel>(ErrorModel::NotFound(k)),
        spec_delete_one_map(m, k) == m,
{
    assert(m.remove(k) =~= m);
}

/// Clearing the store is idempotent: a second clear finds the empty store,
/// leaves it empty, and fails no more than the first did — the handler never
/// fails at all.
pub proof fn lemma_delete_all_idempotent(m: Map<Seq<u8>, Seq<u8>>)
    ensures
        spec_delete_all(spec_delete_all(m)) == spec_delete_all(m),
        spec_delete_all(m) == Map::<Seq<u8>, Seq<u8>>::empty(),
{
}

/// What clearing the store leaves behind, whatever it held.
pub open spec fn spec_delete_all(m: Map<Seq<u8>, Seq<u8>>) -> Map<Seq<u8>, Seq<u8>> {
    Map::empty()
}

} // verus!
