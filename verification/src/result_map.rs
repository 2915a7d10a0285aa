use vstd::prelude::*;

verus! {

/// A fixed-capacity hash map (`heapless::FnvIndexMap`) from result ids to
/// syscall results, holding at most 32 entries.
#[verifier::external_body]
pub struct ResultMap {
    map: heapless::FnvIndexMap<u128, usize, 32>,
}

/// The map without entries.
pub open spec fn no_results() -> Map<u128, usize> {
    Map::empty()
}

/// The entries of a `ResultMap`.
pub uninterp spec fn result_map_entries(m: ResultMap) -> Map<u128, usize>;

/// `FnvIndexMap::new`: a map without entries.
#[verifier::external_body]
pub(crate) fn result_map_new() -> (res: ResultMap)
    ensures
        result_map_entries(res) == no_results(),
{
    ResultMap { map: heapless::FnvIndexMap::new() }
}

/// `FnvIndexMap::insert`: when the key is present, its value is replaced
/// and the old value returned; when it is absent and fewer than 32 entries
/// are held, the entry is added and `None` returned; when it is absent and
/// the map is full, the map is unchanged and the pair comes back in `Err`.
#[verifier::external_body]
pub(crate) fn result_map_insert(m: &mut ResultMap, key: u128, value: usize) -> (res: Result<Option<usize>, (u128, usize)>)
    ensures
        match res {
            Ok(prev) => {
                &&& result_map_entries(*final(m)) == result_map_entries(*old(m)).insert(key, value)
                &&& prev == (if result_map_entries(*old(m)).contains_key(key) {
                    Some(result_map_entries(*old(m))[key])
                } else {
                    None
                })
                &&& (result_map_entries(*old(m)).contains_key(key)
                    || result_map_entries(*old(m)).dom().len() < 32)
            },
            Err(pair) => {
                &&& pair == (key, value)
                &&& result_map_entries(*final(m)) == result_map_entries(*old(m))
                &&& !result_map_entries(*old(m)).contains_key(key)
                &&& result_map_entries(*old(m)).dom().len() == 32
            },
        },
{
    m.map.insert(key, value)
}

/// `FnvIndexMap::contains_key`.
#[verifier::external_body]
pub(crate) fn result_map_contains_key(m: &ResultMap, key: &u128) -> (res: bool)
    ensures
        res == result_map_entries(*m).contains_key(*key),
{
    m.map.contains_key(key)
}

/// `FnvIndexMap::get`, with the value copied out.
#[verifier::external_body]
pub(crate) fn result_map_get(m: &ResultMap, key: &u128) -> (res: Option<usize>)
    ensures
        res == (if result_map_entries(*m).contains_key(*key) {
            Some(result_map_entries(*m)[*key])
        } else {
            None
        }),
{
    m.map.get(key).cloned()
}

} // verus!
