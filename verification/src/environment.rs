//! The environment: a chain of frames, each binding symbol names to values.
//! The first frame is the root, which holds the operators and what `DEF`
//! binds; each frame after it belongs to one activation of a lambda. Names are
//! taken as they stand: the reader has folded them to upper case.

use crate::object::{nil, value_of, RefObject, Value};
use std::sync::Arc;
use vstd::hash_map::StringHashMap;
use vstd::prelude::*;
use vstd::string::StringExecFns;

verus! {

/// One frame as a mathematical value: a map from names to values.
pub type Frame = Map<Seq<char>, Value>;

/// The frames of an environment, the root first and the innermost last.
pub type Frames = Seq<Frame>;

/// The frame that a table of handles stands for.
pub open spec fn frame_of(table: Map<Seq<char>, RefObject>) -> Frame {
    table.map_values(|handle: RefObject| value_of(handle))
}

/// The value bound to `key` in the innermost frame that binds it.
pub open spec fn lookup(frames: Frames, key: Seq<char>) -> Option<Value>
    decreases frames.len(),
{
    if frames.len() == 0 {
        None
    } else if frames.last().contains_key(key) {
        Some(frames.last()[key])
    } else {
        lookup(frames.drop_last(), key)
    }
}

/// The frames with `key` bound to `value` in the innermost one.
pub open spec fn bind(frames: Frames, key: Seq<char>, value: Value) -> Frames
    recommends
        frames.len() > 0,
{
    frames.update(frames.len() - 1, frames.last().insert(key, value))
}

/// The frames with `key` bound to `value` in the root.
pub open spec fn bind_root(frames: Frames, key: Seq<char>, value: Value) -> Frames
    recommends
        frames.len() > 0,
{
    frames.update(0, frames[0].insert(key, value))
}

/// The frames with `key` unbound in the innermost one.
pub open spec fn unbind(frames: Frames, key: Seq<char>) -> Frames
    recommends
        frames.len() > 0,
{
    frames.update(frames.len() - 1, frames.last().remove(key))
}

/// The frames of a new environment: a root that binds `NIL` to Nil.
pub open spec fn initial_frames() -> Frames {
    seq![Map::<Seq<char>, Value>::empty().insert("NIL"@, Value::Nil)]
}

/// A chain of frames.
pub struct Environment {
    root: StringHashMap<RefObject>,
    scopes: Vec<StringHashMap<RefObject>>,
}

impl View for Environment {
    type V = Frames;

    closed spec fn view(&self) -> Frames {
        seq![frame_of(self.root@)] + Seq::new(
            self.scopes.len() as nat,
            |i: int| frame_of(self.scopes[i]@),
        )
    }
}

impl Environment {
    /// Every environment has a root.
    pub proof fn lemma_has_root(&self)
        ensures
            self@.len() > 0,
    {
    }

    /// A new environment: its only frame is the root, which binds `NIL` to
    /// Nil.
    pub fn new() -> (environment: Self)
        ensures
            environment@ == initial_frames(),
    {
        let mut root = StringHashMap::new();
        root.insert(String::from_str("NIL"), nil());
        let environment = Environment { root, scopes: Vec::new() };
        assert(environment@ =~= initial_frames()) by {
            assert(frame_of(environment.root@) =~= initial_frames()[0]);
        }
        environment
    }

    /// Looks a symbol up by its name, in the innermost frame first and in the
    /// root last. The name must match letter for letter.
    pub fn find_symbol(&self, symbol: &String) -> (found: Option<RefObject>)
        ensures
            match lookup(self@, symbol@) {
                Some(value) => found is Some && value_of(found->Some_0) == value,
                None => found is None,
            },
    {
        let key = symbol;
        let mut i: usize = self.scopes.len();
        assert(self@.subrange(0, i + 1) == self@);
        while i > 0
            invariant
                i <= self.scopes.len(),
                key@ == symbol@,
                lookup(self@, key@) == lookup(self@.subrange(0, i + 1), key@),
            decreases i,
        {
            i = i - 1;
            let ghost prefix = self@.subrange(0, i + 2);
            assert(prefix.last() == frame_of(self.scopes[i as int]@));
            assert(prefix.drop_last() == self@.subrange(0, i + 1));
            if let Some(value) = self.scopes[i].get(key.as_str()) {
                return Some(Arc::clone(value));
            }
        }
        let ghost prefix = self@.subrange(0, 1);
        assert(prefix.last() == frame_of(self.root@));
        assert(lookup(prefix.drop_last(), key@) is None);
        if let Some(value) = self.root.get(key.as_str()) {
            Some(Arc::clone(value))
        } else {
            None
        }
    }

    /// Opens a new innermost frame, which binds nothing.
    pub fn new_layer(&mut self)
        ensures
            final(self)@ == old(self)@.push(Map::<Seq<char>, Value>::empty()),
    {
        self.scopes.push(StringHashMap::new());
        assert(self@ =~= old(self)@.push(Map::<Seq<char>, Value>::empty())) by {
            assert(frame_of(self.scopes[self.scopes.len() - 1]@) =~= Map::<
                Seq<char>,
                Value,
            >::empty());
        }
    }

    /// Discards the innermost frame. The root cannot be discarded.
    pub fn drop_layer(&mut self)
        requires
            old(self)@.len() > 1,
        ensures
            final(self)@ == old(self)@.drop_last(),
    {
        self.scopes.pop();
        assert(self@ =~= old(self)@.drop_last());
    }

    /// Binds the name `symbol` to `value` in the innermost frame, in place of
    /// what the frame bound it to before, and returns `value`.
    pub fn intern(&mut self, symbol: String, value: RefObject) -> (same: RefObject)
        ensures
            final(self)@ == bind(old(self)@, symbol@, value_of(value)),
            same == value,
    {
        match self.scopes.pop() {
            Some(mut top) => {
                top.insert(symbol, Arc::clone(&value));
                self.scopes.push(top);
            },
            None => {
                self.root.insert(symbol, Arc::clone(&value));
            },
        }
        assert(self@ =~= bind(old(self)@, symbol@, value_of(value))) by {
            let last = self@.len() - 1;
            assert(self@[last] =~= old(self)@.last().insert(symbol@, value_of(value)));
        }
        value
    }

    /// Binds the name `symbol` to `value` in the root, and returns `value`.
    pub fn intern_root(&mut self, symbol: String, value: RefObject) -> (same: RefObject)
        ensures
            final(self)@ == bind_root(old(self)@, symbol@, value_of(value)),
            same == value,
    {
        self.root.insert(symbol, Arc::clone(&value));
        assert(self@ =~= bind_root(old(self)@, symbol@, value_of(value))) by {
            assert(self@[0] =~= old(self)@[0].insert(symbol@, value_of(value)));
        }
        value
    }

    /// Removes the binding of `symbol` from the innermost frame.
    pub fn unintern(&mut self, symbol: &String)
        ensures
            final(self)@ == unbind(old(self)@, symbol@),
    {
        match self.scopes.pop() {
            Some(mut top) => {
                top.remove(symbol.as_str());
                self.scopes.push(top);
            },
            None => {
                self.root.remove(symbol.as_str());
            },
        }
        assert(self@ =~= unbind(old(self)@, symbol@)) by {
            let last = self@.len() - 1;
            assert(self@[last] =~= old(self)@.last().remove(symbol@));
        }
    }
}

/// The handle through which an evaluation reaches its environment.
pub struct RefEnvironment(pub Environment);

impl View for RefEnvironment {
    type V = Frames;

    open spec fn view(&self) -> Frames {
        self.0@
    }
}

impl RefEnvironment {
    /// A handle to a new environment.
    pub fn new() -> (environment: Self)
        ensures
            environment@ == initial_frames(),
    {
        Self(Environment::new())
    }

    /// A handle to a new frame whose parent is the innermost frame of
    /// `previous`.
    pub fn from(previous: RefEnvironment) -> (environment: RefEnvironment)
        ensures
            environment@ == previous@.push(Map::<Seq<char>, Value>::empty()),
    {
        let mut environment = previous;
        environment.0.new_layer();
        environment
    }
}

} // verus!
