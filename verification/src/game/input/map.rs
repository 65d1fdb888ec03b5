//! The bindings of one control scheme: which source sets off which action.

use crate::game::input::sources::Source;
use crate::game::input::table::{
    distinct_names,
    lemma_map_of_entry,
    lemma_map_of_push,
    lemma_map_of_update,
    map_of,
    names_at,
};
use vstd::prelude::*;

verus! {

pub struct ActionMap {
    map: Vec<(Source, String)>,
}

impl ActionMap {
    /// The bindings in the order in which their sources were first bound:
    /// source and name of the action.
    pub closed spec fn bindings(&self) -> Seq<(Source, Seq<char>)> {
        Seq::new(self.map@.len(), |i: int| (self.map@[i].0, self.map@[i].1@))
    }

    /// No source is bound twice.
    pub open spec fn wf(&self) -> bool {
        distinct_names(self.bindings())
    }

    /// A map without bindings.
    pub fn new() -> (map: ActionMap)
        ensures
            map.wf(),
            map.bindings().len() == 0,
            map@ == Map::<Source, Seq<char>>::empty(),
    {
        let map = ActionMap { map: Vec::new() };
        assert(map@ =~= Map::<Source, Seq<char>>::empty());
        map
    }

    /// The place of the binding of a source, if it is bound.
    pub fn position(&self, source: Source) -> (found: Option<usize>)
        ensures
            match found {
                Some(i) => names_at(self.bindings(), source, i as int),
                None => !self@.dom().contains(source),
            },
    {
        let mut i: usize = 0;
        while i < self.map.len()
            invariant
                i <= self.map@.len(),
                forall|j: int| 0 <= j < i ==> !names_at(self.bindings(), source, j),
            decreases self.map@.len() - i,
        {
            if self.map[i].0 == source {
                assert(self.bindings()[i as int].0 == source);
                return Some(i);
            }
            assert(self.bindings()[i as int].0 != source);
            i = i + 1;
        }
        None
    }

    /// Binds a source to an action. A source that was bound already is bound
    /// to the new action instead.
    pub fn bind(self, source: Source, action_name: &str) -> (map: ActionMap)
        requires
            self.wf(),
        ensures
            map.wf(),
            map@ == self@.insert(source, action_name@),
            self@.dom().contains(source) ==> map.bindings().len() == self.bindings().len(),
            !self@.dom().contains(source) ==> map.bindings() == self.bindings().push(
                (source, action_name@),
            ),
    {
        let mut map = self;
        let ghost before = map.bindings();
        let name: String = action_name.to_owned();
        match map.position(source) {
            Some(i) => {
                map.map[i] = (source, name);
                assert(map.bindings() =~= before.update(i as int, (source, action_name@)));
                proof {
                    lemma_map_of_update(before, i as int, action_name@);
                }
            },
            None => {
                map.map.push((source, name));
                assert(map.bindings() =~= before.push((source, action_name@)));
                proof {
                    lemma_map_of_push(before, source, action_name@);
                }
            },
        }
        map
    }

    /// The action that a source is bound to, if it is bound.
    pub fn get(&self, source: Source) -> (action: Option<&String>)
        requires
            self.wf(),
        ensures
            match action {
                Some(name) => self@.dom().contains(source) && name@ == self@[source],
                None => !self@.dom().contains(source),
            },
    {
        match self.position(source) {
            Some(i) => {
                proof {
                    lemma_map_of_entry(self.bindings(), i as int);
                }
                Some(&self.map[i].1)
            },
            None => None,
        }
    }

    /// The number of bindings.
    pub fn len(&self) -> (len: usize)
        ensures
            len == self.bindings().len(),
    {
        self.map.len()
    }

    /// The binding at a place: source and name of the action.
    pub fn binding(&self, i: usize) -> (binding: (Source, &String))
        requires
            i < self.bindings().len(),
        ensures
            binding.0 == self.bindings()[i as int].0,
            binding.1@ == self.bindings()[i as int].1,
    {
        (self.map[i].0, &self.map[i].1)
    }
}

impl View for ActionMap {
    type V = Map<Source, Seq<char>>;

    open spec fn view(&self) -> Map<Source, Seq<char>> {
        map_of(self.bindings())
    }
}

} // verus!
