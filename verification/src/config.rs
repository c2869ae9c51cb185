//! The store for the upstream base address.
//!
//! The store holds what was last set, or nothing. It does not look at the
//! address, and it substitutes nothing where none is set: the default address
//! belongs to the proxy.

use vstd::prelude::*;

verus! {

/// The current upstream base address, if one is configured.
#[derive(PartialEq, Eq, Clone, Debug)]
pub struct ConfigStore {
    upstream: Option<String>,
}

impl View for ConfigStore {
    type V = Option<Seq<char>>;

    closed spec fn view(&self) -> Option<Seq<char>> {
        self.upstream.deep_view()
    }
}

/// What a store holds after `address` was set: `address`, whatever it held
/// before.
pub open spec fn after_set(before: Option<Seq<char>>, address: Option<Seq<char>>) -> Option<
    Seq<char>,
> {
    address
}

/// What a store holds after each of `addresses` was set in turn.
pub open spec fn after_sets(
    before: Option<Seq<char>>,
    addresses: Seq<Option<Seq<char>>>,
) -> Option<Seq<char>>
    decreases addresses.len(),
{
    if addresses.len() == 0 {
        before
    } else {
        after_sets(after_set(before, addresses[0]), addresses.drop_first())
    }
}

impl ConfigStore {
    /// A store with no address configured.
    pub fn new() -> (store: ConfigStore)
        ensures
            store@.is_none(),
    {
        ConfigStore { upstream: None }
    }

    /// Replaces the stored address by `address`; `None` clears it.
    pub fn set_upstream(&mut self, address: Option<String>)
        ensures
            final(self)@ == after_set(old(self)@, address.deep_view()),
    {
        self.upstream = address;
    }

    /// A copy of the stored address.
    pub fn get_upstream(&self) -> (address: Option<String>)
        ensures
            address.deep_view() == self@,
    {
        match &self.upstream {
            Some(text) => Some(text.clone()),
            None => None,
        }
    }
}

/// Reading the store gives exactly what was set last, an absent address
/// included; before anything is set it gives what the store held.
pub proof fn lemma_get_returns_last_set(
    before: Option<Seq<char>>,
    addresses: Seq<Option<Seq<char>>>,
)
    ensures
        after_sets(before, addresses) == if addresses.len() == 0 {
            before
        } else {
            addresses.last()
        },
    decreases addresses.len(),
{
    if addresses.len() > 0 {
        lemma_get_returns_last_set(after_set(before, addresses[0]), addresses.drop_first());
    }
}

} // verus!
