//! Execution contexts: isolated key/value state, and the store that owns every context.

use crate::json::{parse_state, parsed_state};
use crate::string_map::{distinct_keys, listing_map, StringMap};
use vstd::prelude::*;

verus! {

/// The state of a context as contracts see it: from each key to the value under it.
pub type StateView = Map<Seq<char>, serde_json::Value>;

/// The state that a context starts with, given the initial-state text it is created with.
///
/// A text that is no JSON object counts as no text at all: the context starts empty.
pub open spec fn initial_state(text: Option<Seq<char>>) -> StateView {
    match text {
        Some(text) => match parsed_state(text) {
            Some(state) => state,
            None => Map::empty(),
        },
        None => Map::empty(),
    }
}

/// The characters of a text that may be absent.
pub open spec fn text_view(text: Option<String>) -> Option<Seq<char>> {
    match text {
        Some(text) => Some(text@),
        None => None,
    }
}

/// Whether a character is a decimal digit or a letter from `a` to `f`.
pub open spec fn is_hex_digit(character: char) -> bool {
    let code = character as u32;
    48 <= code <= 57 || 97 <= code <= 102
}

/// Whether a text has the shape of a UUID as it is printed: 36 characters, of which four
/// are hyphens that part groups of 8, 4, 4, 4 and 12 hexadecimal digits.
pub open spec fn is_uuid_text(text: Seq<char>) -> bool {
    &&& text.len() == 36
    &&& forall|i: int|
        0 <= i < 36 ==> if i == 8 || i == 13 || i == 18 || i == 23 {
            text[i] == '-'
        } else {
            is_hex_digit(#[trigger] text[i])
        }
}

/// Calls `Uuid::new_v4` and prints the identifier with `Display`. Which identifier comes
/// depends on chance; its printed shape does not.
#[verifier::external_body]
pub(crate) fn fresh_context_id() -> (id: String)
    ensures
        is_uuid_text(id@),
{
    uuid::Uuid::new_v4().to_string()
}

/// A copy of a listing, entry by entry.
fn copy_entries(entries: &Vec<(String, serde_json::Value)>) -> (copy: Vec<
    (String, serde_json::Value),
>)
    ensures
        copy@ == entries@,
{
    let mut copy: Vec<(String, serde_json::Value)> = Vec::new();
    let mut index: usize = 0;
    while index < entries.len()
        invariant
            index <= entries.len(),
            copy@ == entries@.take(index as int),
        decreases entries.len() - index,
    {
        let key = entries[index].0.clone();
        let value = entries[index].1.clone();
        copy.push((key, value));
        index += 1;
    }
    copy
}

/// The state of one context, with the identifier it was created under.
pub struct ExecutionContext {
    context_id: String,
    state: StringMap<serde_json::Value>,
}

impl View for ExecutionContext {
    type V = StateView;

    closed spec fn view(&self) -> StateView {
        self.state@
    }
}

impl ExecutionContext {
    /// The identifier that the context was created under.
    pub closed spec fn id(&self) -> Seq<char> {
        self.context_id@
    }

    /// A context under `context_id` that starts with what `initial_state` denotes.
    pub(crate) fn new(context_id: String, initial_state: Option<String>) -> (context: Self)
        ensures
            context.id() == context_id@,
            context@ == self::initial_state(text_view(initial_state)),
    {
        let state = match initial_state {
            Some(text) => match parse_state(text.as_str()) {
                Some(entries) => StringMap::from_distinct(entries),
                None => StringMap::new(),
            },
            None => StringMap::new(),
        };
        ExecutionContext { context_id, state }
    }

    /// A copy of the value under `key`, if there is one.
    pub fn get_state(&self, key: &str) -> (value: Option<serde_json::Value>)
        ensures
            value == if self@.contains_key(key@) {
                Some(self@[key@])
            } else {
                None
            },
    {
        match self.state.get(key) {
            Some(value) => Some(value.clone()),
            None => None,
        }
    }

    /// Puts `value` under `key`; every other key keeps its value.
    pub fn set_state(&mut self, key: String, value: serde_json::Value)
        ensures
            final(self)@ == old(self)@.insert(key@, value),
            final(self).id() == old(self).id(),
    {
        let _ = self.state.insert(key, value);
    }

    /// A copy of the whole state.
    pub fn get_all_state(&self) -> (state: StringMap<serde_json::Value>)
        ensures
            state@ == self@,
    {
        StringMap::from_distinct(copy_entries(self.state.entries()))
    }

    /// The entries of the state, for encoding.
    pub(crate) fn entries(&self) -> (entries: &Vec<(String, serde_json::Value)>)
        ensures
            distinct_keys(entries@),
            listing_map(entries@) == self@,
    {
        self.state.entries()
    }
}

/// What the store holds as contracts see it: from each context identifier to the state of
/// its context.
pub type StoreView = Map<Seq<char>, StateView>;

/// Every live context, by its identifier.
pub struct ContextStore {
    contexts: StringMap<ExecutionContext>,
}

impl View for ContextStore {
    type V = StoreView;

    closed spec fn view(&self) -> StoreView {
        self.contexts@.map_values(|context: ExecutionContext| context@)
    }
}

impl ContextStore {
    /// A store without contexts.
    pub fn new() -> (store: Self)
        ensures
            store@ == Map::<Seq<char>, StateView>::empty(),
    {
        let store = ContextStore { contexts: StringMap::new() };
        store
    }

    /// Creates a context under a fresh identifier and returns the identifier.
    ///
    /// The identifier is a random UUID as it is printed, so it is never the empty text that
    /// stands for "no context". The new context starts with what `initial_state` denotes.
    /// Should the identifier be that of a live context, the new context takes its place.
    pub fn create(&mut self, initial_state: Option<String>) -> (id: String)
        ensures
            is_uuid_text(id@),
            final(self)@ == old(self)@.insert(id@, self::initial_state(text_view(initial_state))),
    {
        let id = fresh_context_id();
        let context = ExecutionContext::new(id.clone(), initial_state);
        let _ = self.contexts.insert(id.clone(), context);
        id
    }

    /// The context under `id`, if it is live.
    pub fn get(&self, id: &str) -> (found: Option<&ExecutionContext>)
        ensures
            found is Some <==> self@.contains_key(id@),
            found matches Some(context) ==> context@ == self@[id@],
    {
        self.contexts.get(id)
    }

    /// Destroys the context under `id`. Returns whether there was one.
    pub fn destroy(&mut self, id: &str) -> (removed: bool)
        ensures
            removed == old(self)@.contains_key(id@),
            final(self)@ == old(self)@.remove(id@),
    {
        let removed = self.contexts.remove(id);
        removed.is_some()
    }

    /// Takes the context under `id` out of the store, to hand it to a handler.
    pub(crate) fn take(&mut self, id: &str) -> (taken: Option<ExecutionContext>)
        ensures
            taken is Some <==> old(self)@.contains_key(id@),
            taken matches Some(context) ==> context@ == old(self)@[id@],
            final(self)@ == old(self)@.remove(id@),
    {
        let taken = self.contexts.remove(id);
        taken
    }

    /// Puts a context back under `id`.
    pub(crate) fn put(&mut self, id: String, context: ExecutionContext)
        ensures
            final(self)@ == old(self)@.insert(id@, context@),
    {
        let _ = self.contexts.insert(id, context);
    }
}

} // verus!
