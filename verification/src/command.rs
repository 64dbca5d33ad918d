//! Logical player commands, their held/released state, and the translation
//! from physical key identifiers to commands.

use vstd::prelude::*;

verus! {

/// A logical player action, decoupled from physical input keys.
#[derive(Clone, Copy, Debug, PartialEq, Eq, Structural)]
pub enum Command {
    Exit,
    Up,
    Down,
    Left,
    Right,
    Interact,
}

/// Held/released state of every command. Fully populated: each command is
/// either held or not, never absent.
#[derive(Clone, Copy, Debug, PartialEq, Eq, Structural)]
pub struct CommandState {
    pub exit: bool,
    pub up: bool,
    pub down: bool,
    pub left: bool,
    pub right: bool,
    pub interact: bool,
}

impl CommandState {
    /// Whether `c` is currently held.
    pub open spec fn spec_held(self, c: Command) -> bool {
        match c {
            Command::Exit => self.exit,
            Command::Up => self.up,
            Command::Down => self.down,
            Command::Left => self.left,
            Command::Right => self.right,
            Command::Interact => self.interact,
        }
    }

    /// The initial state: no command held.
    pub fn new() -> (s: CommandState)
        ensures
            forall|c: Command| !s.spec_held(c),
    {
        CommandState { exit: false, up: false, down: false, left: false, right: false, interact: false }
    }

    /// Whether `c` is currently held.
    pub fn is_held(&self, c: Command) -> (b: bool)
        ensures
            b == self.spec_held(c),
    {
        match c {
            Command::Exit => self.exit,
            Command::Up => self.up,
            Command::Down => self.down,
            Command::Left => self.left,
            Command::Right => self.right,
            Command::Interact => self.interact,
        }
    }

    /// Sets the held state of `c`, leaving every other command unchanged.
    pub fn set_held(&mut self, c: Command, held: bool)
        ensures
            final(self).spec_held(c) == held,
            forall|o: Command| o != c ==> final(self).spec_held(o) == old(self).spec_held(o),
    {
        match c {
            Command::Exit => self.exit = held,
            Command::Up => self.up = held,
            Command::Down => self.down = held,
            Command::Left => self.left = held,
            Command::Right => self.right = held,
            Command::Interact => self.interact = held,
        }
    }
}

/// First command paired with `key`, scanning front to back.
pub open spec fn lookup_in(pairs: Seq<(i32, Command)>, key: i32) -> Option<Command>
    decreases pairs.len(),
{
    if pairs.len() == 0 {
        None
    } else if pairs[0].0 == key {
        Some(pairs[0].1)
    } else {
        lookup_in(pairs.drop_first(), key)
    }
}

/// A scan that passed the first `i` pairs without a match continues as a scan
/// of the rest.
proof fn lemma_lookup_skip(pairs: Seq<(i32, Command)>, key: i32, i: int)
    requires
        0 <= i <= pairs.len(),
        forall|j: int| 0 <= j < i ==> (#[trigger] pairs[j]).0 != key,
    ensures
        lookup_in(pairs, key) == lookup_in(pairs.skip(i), key),
    decreases i,
{
    if i > 0 {
        lemma_lookup_skip(pairs.drop_first(), key, i - 1);
        assert(pairs.drop_first().skip(i - 1) =~= pairs.skip(i));
    } else {
        assert(pairs.skip(0) =~= pairs);
    }
}

/// Maps physical key identifiers (as the platform layer reports them) to at
/// most one command each; several keys may map to the same command. Keys
/// without a binding are a no-op, not an error.
#[derive(Debug)]
pub struct InputBinding {
    pairs: Vec<(i32, Command)>,
}

impl InputBinding {
    /// The command bound to `key`, if any.
    pub closed spec fn spec_lookup(&self, key: i32) -> Option<Command> {
        lookup_in(self.pairs@, key)
    }

    /// An empty binding: every key is unbound.
    pub fn new() -> (b: InputBinding)
        ensures
            forall|k: i32| b.spec_lookup(k) is None,
    {
        InputBinding { pairs: Vec::new() }
    }

    /// Binds `key` to `c`, replacing any earlier binding of `key` and leaving
    /// every other key's binding unchanged.
    pub fn bind(&mut self, key: i32, c: Command)
        ensures
            final(self).spec_lookup(key) == Some(c),
            forall|k: i32| k != key ==> final(self).spec_lookup(k) == old(self).spec_lookup(k),
    {
        self.pairs.insert(0, (key, c));
        proof {
            assert(self.pairs@.drop_first() =~= old(self).pairs@);
        }
    }

    /// The command bound to `key`, or `None` if the key is unbound.
    pub fn lookup(&self, key: i32) -> (r: Option<Command>)
        ensures
            r == self.spec_lookup(key),
    {
        let n: usize = self.pairs.len();
        let mut i: usize = 0;
        while i < n
            invariant
                i <= n,
                n == self.pairs@.len(),
                forall|j: int| 0 <= j < i ==> (#[trigger] self.pairs@[j]).0 != key,
            decreases n - i,
        {
            let (k, c) = self.pairs[i];
            if k == key {
                proof {
                    lemma_lookup_skip(self.pairs@, key, i as int);
                    assert(self.pairs@.skip(i as int)[0] == self.pairs@[i as int]);
                }
                return Some(c);
            }
            i += 1;
        }
        proof {
            lemma_lookup_skip(self.pairs@, key, n as int);
        }
        None
    }
}

/// Records a key-down event: if `binding` maps `key` to a command, that
/// command becomes held and the call returns `true`; an unbound key changes
/// nothing and returns `false` (a diagnostic matter, never an error).
pub fn apply_key_down(state: &mut CommandState, binding: &InputBinding, key: i32) -> (bound: bool)
    ensures
        binding.spec_lookup(key) matches Some(c) ==> bound && final(state).spec_held(c)
            && (forall|o: Command| o != c ==> final(state).spec_held(o) == old(state).spec_held(o)),
        binding.spec_lookup(key) is None ==> !bound && *final(state) == *old(state),
{
    match binding.lookup(key) {
        Some(c) => {
            state.set_held(c, true);
            true
        },
        None => false,
    }
}

/// Records a key-up event: if `binding` maps `key` to a command, that command
/// becomes released and the call returns `true`; an unbound key changes
/// nothing and returns `false`.
pub fn apply_key_up(state: &mut CommandState, binding: &InputBinding, key: i32) -> (bound: bool)
    ensures
        binding.spec_lookup(key) matches Some(c) ==> bound && !final(state).spec_held(c)
            && (forall|o: Command| o != c ==> final(state).spec_held(o) == old(state).spec_held(o)),
        binding.spec_lookup(key) is None ==> !bound && *final(state) == *old(state),
{
    match binding.lookup(key) {
        Some(c) => {
            state.set_held(c, false);
            true
        },
        None => false,
    }
}

} // verus!
