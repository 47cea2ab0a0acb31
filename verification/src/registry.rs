//! The function registry: each callable function by its name, with what describes it.

use crate::context::{ExecutionContext, StateView};
use crate::string_map::{
    distinct_keys, lemma_listing_lookup, listing_map, listing_with, position_of, StringMap,
};
use crate::text::{has_prefix, texts_view};
use vstd::prelude::*;

verus! {

/// The executable logic behind one function name.
///
/// A handler reads and writes the state of the context it is called in, reads its
/// arguments, and returns a value or an error text. What it may do is its own affair:
/// `effect` is the relation between what a call starts from and what it ends with, and the
/// service promises nothing of a call but that this relation holds of it. A handler that
/// does not say what its calls may do is taken to allow anything.
pub trait Handler: Send + Sync {
    /// Whether a call that finds the state `before` and is given `arguments` may end with
    /// `outcome` and leave the state `after`.
    open spec fn effect(
        &self,
        before: StateView,
        arguments: serde_json::Value,
        outcome: Result<serde_json::Value, String>,
        after: StateView,
    ) -> bool {
        true
    }

    /// Runs the function in `context` on `arguments`.
    fn call(&self, context: &mut ExecutionContext, arguments: serde_json::Value) -> (outcome:
        Result<serde_json::Value, String>)
        ensures
            self.effect(old(context)@, arguments, outcome, final(context)@),
    ;
}

/// What describes a registered function to its callers.
#[derive(Debug)]
pub struct FunctionMetadata {
    pub description: String,
    pub is_stateful: bool,
    pub parameter_types: Vec<String>,
    pub return_type: String,
}

/// One entry of a method listing: a function's name with its metadata.
#[derive(Debug)]
pub struct MethodInfo {
    pub name: String,
    pub description: String,
    pub is_stateful: bool,
    pub parameter_types: Vec<String>,
    pub return_type: String,
}

/// A method listing entry as contracts see it.
pub struct MethodInfoView {
    pub name: Seq<char>,
    pub description: Seq<char>,
    pub is_stateful: bool,
    pub parameter_types: Seq<Seq<char>>,
    pub return_type: Seq<char>,
}

impl View for MethodInfo {
    type V = MethodInfoView;

    open spec fn view(&self) -> MethodInfoView {
        MethodInfoView {
            name: self.name@,
            description: self.description@,
            is_stateful: self.is_stateful,
            parameter_types: texts_view(self.parameter_types@),
            return_type: self.return_type@,
        }
    }
}

/// The listing entry for a function registered as `name` with `metadata`.
pub open spec fn method_info(name: Seq<char>, metadata: FunctionMetadata) -> MethodInfoView {
    MethodInfoView {
        name,
        description: metadata.description@,
        is_stateful: metadata.is_stateful,
        parameter_types: texts_view(metadata.parameter_types@),
        return_type: metadata.return_type@,
    }
}

/// A registered function: its handler, and what describes it.
pub struct RegisteredFunction<H> {
    pub handler: H,
    pub metadata: FunctionMetadata,
}

/// The entries of a registry whose names begin with `prefix`, in the order of the
/// registry, each as a listing entry.
pub open spec fn listed<H>(entries: Seq<(String, RegisteredFunction<H>)>, prefix: Seq<char>) -> Seq<
    MethodInfoView,
> {
    entries.filter(|entry: (String, RegisteredFunction<H>)| prefix.is_prefix_of(entry.0@)).map_values(
        |entry: (String, RegisteredFunction<H>)| method_info(entry.0@, entry.1.metadata),
    )
}

/// The listing entries of a sequence of `MethodInfo`.
pub open spec fn infos_view(infos: Seq<MethodInfo>) -> Seq<MethodInfoView> {
    infos.map_values(|info: MethodInfo| info@)
}

/// Whether `info` is the listing entry of the function registered under its name.
pub open spec fn describes<H>(info: MethodInfoView, functions: Map<Seq<char>, RegisteredFunction<H>>) -> bool {
    functions.contains_key(info.name) && info == method_info(
        info.name,
        functions[info.name].metadata,
    )
}

/// Whether `infos` lists exactly the functions whose names begin with `prefix`: each
/// entry is that of a registered function with such a name and carries the metadata
/// registered under it, no such function is missing, and no name comes twice.
pub open spec fn lists_exactly<H>(
    infos: Seq<MethodInfoView>,
    functions: Map<Seq<char>, RegisteredFunction<H>>,
    prefix: Seq<char>,
) -> bool {
    &&& forall|i: int|
        0 <= i < infos.len() ==> prefix.is_prefix_of((#[trigger] infos[i]).name) && describes(
            infos[i],
            functions,
        )
    &&& forall|name: Seq<char>|
        functions.contains_key(name) && prefix.is_prefix_of(name) ==> exists|i: int|
            0 <= i < infos.len() && (#[trigger] infos[i]).name == name
    &&& forall|i: int, j: int| 0 <= i < j < infos.len() ==> infos[i].name != infos[j].name
}

/// A listing by prefix lists exactly the functions whose names begin with the prefix,
/// where the registry has one entry for each name.
pub proof fn lemma_listed_is_exact<H>(entries: Seq<(String, RegisteredFunction<H>)>, prefix: Seq<char>)
    requires
        distinct_keys(entries),
    ensures
        lists_exactly(listed(entries, prefix), listing_map(entries), prefix),
    decreases entries.len(),
{
    reveal(Seq::filter);
    let keep = |entry: (String, RegisteredFunction<H>)| prefix.is_prefix_of(entry.0@);
    let all = listed(entries, prefix);
    if entries.len() > 0 {
        let rest = entries.drop_last();
        let last = entries.last();
        let before = listed(rest, prefix);
        lemma_listed_is_exact(rest, prefix);
        lemma_listing_lookup(entries, entries.len() - 1);
        assert(all =~= if keep(last) {
            before.push(method_info(last.0@, last.1.metadata))
        } else {
            before
        });
        // An entry of the rest stands in the whole listing too, under another name than
        // the last.
        assert forall|name: Seq<char>| #[trigger] listing_map(rest).contains_key(name) implies name
            != last.0@ && listing_map(entries).contains_key(name) && listing_map(entries)[name]
            == listing_map(rest)[name] by {
            let place = position_of(rest, name);
            assert(rest[place].0@ == name);
            assert(entries[place] == rest[place]);
            lemma_listing_lookup(rest, place);
            lemma_listing_lookup(entries, place);
        }
        assert forall|i: int| 0 <= i < all.len() implies prefix.is_prefix_of((#[trigger] all[i]).name)
            && describes(all[i], listing_map(entries)) by {
            if i < before.len() {
                assert(all[i] == before[i]);
                assert(listing_map(rest).contains_key(before[i].name));
            }
        }
        assert forall|name: Seq<char>|
            listing_map(entries).contains_key(name) && prefix.is_prefix_of(name) implies exists|
            i: int,
        | 0 <= i < all.len() && (#[trigger] all[i]).name == name by {
            if name == last.0@ {
                assert(all[all.len() - 1].name == name);
            } else {
                let place = position_of(entries, name);
                assert(entries[place].0@ == name);
                assert(rest[place] == entries[place]);
                assert(listing_map(rest).contains_key(name));
                let i = choose|i: int| 0 <= i < before.len() && (#[trigger] before[i]).name == name;
                assert(all[i].name == name);
            }
        }
        assert forall|i: int, j: int| 0 <= i < j < all.len() implies all[i].name != all[j].name by {
            if j < before.len() {
                assert(all[i] == before[i] && all[j] == before[j]);
            } else {
                assert(all[i] == before[i]);
                assert(listing_map(rest).contains_key(before[i].name));
            }
        }
    }
}

/// The empty prefix selects every entry.
pub proof fn lemma_empty_prefix_lists_all<H>(entries: Seq<(String, RegisteredFunction<H>)>)
    ensures
        listed(entries, Seq::<char>::empty()) == entries.map_values(
            |entry: (String, RegisteredFunction<H>)| method_info(entry.0@, entry.1.metadata),
        ),
{
    lemma_keep_all(entries);
}

/// Filtering by the empty prefix keeps a listing as it is.
proof fn lemma_keep_all<H>(entries: Seq<(String, RegisteredFunction<H>)>)
    ensures
        entries.filter(
            |entry: (String, RegisteredFunction<H>)| Seq::<char>::empty().is_prefix_of(entry.0@),
        ) == entries,
    decreases entries.len(),
{
    reveal(Seq::filter);
    if entries.len() > 0 {
        lemma_keep_all(entries.drop_last());
    }
}

/// A copy of a sequence of texts.
fn copy_texts(texts: &Vec<String>) -> (copy: Vec<String>)
    ensures
        copy@ == texts@,
{
    let mut copy: Vec<String> = Vec::new();
    let mut index: usize = 0;
    while index < texts.len()
        invariant
            index <= texts.len(),
            copy@ == texts@.take(index as int),
        decreases texts.len() - index,
    {
        copy.push(texts[index].clone());
        index += 1;
    }
    copy
}

/// Every registered function, by its name.
///
/// The handlers are of one type `H`; a service that offers functions of several kinds
/// has an `H` with a variant for each.
pub struct FunctionRegistry<H: Handler> {
    functions: StringMap<RegisteredFunction<H>>,
}

impl<H: Handler> View for FunctionRegistry<H> {
    type V = Map<Seq<char>, RegisteredFunction<H>>;

    closed spec fn view(&self) -> Map<Seq<char>, RegisteredFunction<H>> {
        self.functions@
    }
}

impl<H: Handler> FunctionRegistry<H> {
    /// The entries in the order in which their names were first registered.
    pub closed spec fn listing(&self) -> Seq<(String, RegisteredFunction<H>)> {
        self.functions.listing()
    }

    /// The registry holds what its listing denotes.
    pub proof fn lemma_view_of_listing(&self)
        ensures
            self@ == listing_map(self.listing()),
    {
        self.functions.lemma_view_of_listing();
    }

    /// A registry without functions.
    pub fn new() -> (registry: Self)
        ensures
            registry@ == Map::<Seq<char>, RegisteredFunction<H>>::empty(),
            registry.listing().len() == 0,
    {
        FunctionRegistry { functions: StringMap::new() }
    }

    /// Registers `handler` with `metadata` under `name`, in the place of what was
    /// registered under that name before.
    pub fn register(&mut self, name: String, handler: H, metadata: FunctionMetadata)
        ensures
            final(self)@ == old(self)@.insert(name@, RegisteredFunction { handler, metadata }),
            final(self).listing() == listing_with(
                old(self).listing(),
                name,
                RegisteredFunction { handler, metadata },
            ),
    {
        let _ = self.functions.insert(name, RegisteredFunction { handler, metadata });
    }

    /// The handler registered under exactly `name`, if there is one.
    pub fn resolve(&self, name: &str) -> (found: Option<&H>)
        ensures
            found is Some <==> self@.contains_key(name@),
            found matches Some(handler) ==> *handler == self@[name@].handler,
    {
        match self.functions.get(name) {
            Some(function) => Some(&function.handler),
            None => None,
        }
    }

    /// The listing entries of the functions whose names begin with `prefix`, in the order
    /// of the registry.
    pub fn list(&self, prefix: &str) -> (infos: Vec<MethodInfo>)
        ensures
            infos_view(infos@) == listed(self.listing(), prefix@),
            distinct_keys(self.listing()),
            lists_exactly(infos_view(infos@), self@, prefix@),
    {
        let entries = self.functions.entries();
        proof {
            lemma_listed_is_exact(entries@, prefix@);
        }
        let ghost keep = |entry: (String, RegisteredFunction<H>)| prefix@.is_prefix_of(entry.0@);
        let ghost describe = |entry: (String, RegisteredFunction<H>)|
            method_info(entry.0@, entry.1.metadata);
        let mut infos: Vec<MethodInfo> = Vec::new();
        let mut index: usize = 0;
        assert(entries@.take(0).filter(keep) == Seq::<(String, RegisteredFunction<H>)>::empty()) by {
            reveal(Seq::filter);
        }
        while index < entries.len()
            invariant
                index <= entries.len(),
                keep == |entry: (String, RegisteredFunction<H>)| prefix@.is_prefix_of(entry.0@),
                describe == |entry: (String, RegisteredFunction<H>)|
                    method_info(entry.0@, entry.1.metadata),
                infos_view(infos@) == entries@.take(index as int).filter(keep).map_values(describe),
            decreases entries.len() - index,
        {
            let entry = &entries[index];
            let ghost before = entries@.take(index as int);
            let ghost after = entries@.take(index + 1);
            proof {
                reveal(Seq::filter);
                assert(after.drop_last() == before);
            }
            if prefix.is_empty() || has_prefix(entry.0.as_str(), prefix) {
                let info = MethodInfo {
                    name: entry.0.clone(),
                    description: entry.1.metadata.description.clone(),
                    is_stateful: entry.1.metadata.is_stateful,
                    parameter_types: copy_texts(&entry.1.metadata.parameter_types),
                    return_type: entry.1.metadata.return_type.clone(),
                };
                let ghost added = info@;
                infos.push(info);
                assert(after.filter(keep).map_values(describe) =~= before.filter(keep).map_values(
                    describe,
                ).push(added));
            }
            index += 1;
        }
        assert(entries@.take(entries.len() as int) == entries@);
        infos
    }
}

} // verus!
