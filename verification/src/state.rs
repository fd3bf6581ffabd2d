//! The transient cache of transcoded images, keyed by 128-bit handles.

use std::collections::HashMap;
use vstd::prelude::*;

verus! {

broadcast use vstd::std_specs::hash::group_hash_axioms;

/// What the 128-bit identifier `id` reads as in the hyphenated lower-case form.
pub uninterp spec fn hyphenated(id: u128) -> Seq<char>;

/// The identifier that a text denotes in any of the forms the parser accepts, if it
/// denotes one.
pub uninterp spec fn parsed_id(text: Seq<char>) -> Option<u128>;

/// Draws a random identifier with `Uuid::new_v4`. Nothing is claimed of the value.
#[verifier::external_body]
pub(crate) fn fresh_id() -> (id: u128) {
    uuid::Uuid::new_v4().as_u128()
}

/// Formats with `Uuid::from_u128` and the `Display` of `Uuid`: the text that
/// [`hyphenated`] names, which parses back to the same identifier.
#[verifier::external_body]
pub(crate) fn id_text(id: u128) -> (text: String)
    ensures
        text@ == hyphenated(id),
        parsed_id(text@) == Some(id),
{
    uuid::Uuid::from_u128(id).to_string()
}

/// Parses with `Uuid::parse_str`: the identifier that [`parsed_id`] names.
#[verifier::external_body]
pub(crate) fn parse_id(text: &str) -> (id: Option<u128>)
    ensures
        id == parsed_id(text@),
{
    match uuid::Uuid::parse_str(text) {
        Ok(u) => Some(u.as_u128()),
        Err(_) => None,
    }
}

/// The shared state of a session: the cache of transcoded images that wait for their
/// upload.
pub struct AppState {
    pub image_cache: HashMap<u128, Vec<u8>>,
}

impl View for AppState {
    type V = Map<u128, Seq<u8>>;

    /// The cached buffers by handle.
    open spec fn view(&self) -> Map<u128, Seq<u8>> {
        Map::new(|id: u128| self.image_cache@.contains_key(id), |id: u128| self.image_cache@[id]@)
    }
}

impl AppState {
    /// An empty cache.
    pub fn new() -> (state: Self)
        ensures
            state@ == Map::<u128, Seq<u8>>::empty(),
    {
        let state = Self { image_cache: HashMap::new() };
        assert(state@ =~= Map::<u128, Seq<u8>>::empty());
        state
    }

    /// Puts `bytes` under `id`, in place of what was there.
    pub fn store(&mut self, id: u128, bytes: Vec<u8>)
        ensures
            final(self)@ == old(self)@.insert(id, bytes@),
    {
        self.image_cache.insert(id, bytes);
        assert(self@ =~= old(self)@.insert(id, bytes@));
    }

    /// Caches `bytes` under a freshly drawn handle and returns the handle.
    pub fn insert(&mut self, bytes: Vec<u8>) -> (id: u128)
        ensures
            final(self)@ == old(self)@.insert(id, bytes@),
    {
        let id = fresh_id();
        self.store(id, bytes);
        id
    }

    /// A copy of the buffer under `id`, if there is one.
    pub fn get(&self, id: u128) -> (found: Option<Vec<u8>>)
        ensures
            match found {
                Some(bytes) => self@.contains_key(id) && bytes@ == self@[id],
                None => !self@.contains_key(id),
            },
    {
        match self.image_cache.get(&id) {
            Some(bytes) => {
                let copy = bytes.clone();
                assert(copy@ =~= bytes@);
                Some(copy)
            },
            None => None,
        }
    }

    /// Whether a buffer is cached under `id`.
    pub fn contains(&self, id: u128) -> (found: bool)
        ensures
            found == self@.contains_key(id),
    {
        self.image_cache.contains_key(&id)
    }

    /// Drops the buffer under `id`; without one the cache stays as it is.
    pub fn remove(&mut self, id: u128)
        ensures
            final(self)@ == old(self)@.remove(id),
    {
        self.image_cache.remove(&id);
        assert(self@ =~= old(self)@.remove(id));
    }
}

/// A handle resolves to exactly the bytes it was given for.
pub proof fn lemma_insert_then_get(cache: Map<u128, Seq<u8>>, id: u128, bytes: Seq<u8>)
    ensures
        cache.insert(id, bytes).contains_key(id),
        cache.insert(id, bytes)[id] == bytes,
{
}

/// Work under another handle, an insertion or a removal, leaves what a handle resolves to
/// as it is.
pub proof fn lemma_other_handles_untouched(
    cache: Map<u128, Seq<u8>>,
    id: u128,
    other: u128,
    bytes: Seq<u8>,
)
    requires
        id != other,
    ensures
        cache.insert(other, bytes).contains_key(id) == cache.contains_key(id),
        cache.contains_key(id) ==> cache.insert(other, bytes)[id] == cache[id],
        cache.remove(other).contains_key(id) == cache.contains_key(id),
        cache.contains_key(id) ==> cache.remove(other)[id] == cache[id],
{
}

/// Two buffers cached under distinct handles are both found again, each under its own
/// handle, in whichever order they went in.
pub proof fn lemma_distinct_handles_keep_their_buffers(
    cache: Map<u128, Seq<u8>>,
    first: u128,
    first_bytes: Seq<u8>,
    second: u128,
    second_bytes: Seq<u8>,
)
    requires
        first != second,
    ensures
        cache.insert(first, first_bytes).insert(second, second_bytes)[first] == first_bytes,
        cache.insert(first, first_bytes).insert(second, second_bytes)[second] == second_bytes,
        cache.insert(first, first_bytes).insert(second, second_bytes) == cache.insert(
            second,
            second_bytes,
        ).insert(first, first_bytes),
{
    assert(cache.insert(first, first_bytes).insert(second, second_bytes) =~= cache.insert(
        second,
        second_bytes,
    ).insert(first, first_bytes));
}

/// After its removal a handle resolves to nothing.
pub proof fn lemma_removed_is_gone(cache: Map<u128, Seq<u8>>, id: u128)
    ensures
        !cache.remove(id).contains_key(id),
{
}

} // verus!
