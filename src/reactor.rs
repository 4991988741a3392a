//! Identity registry of the reactor.
//!
//! The reactor hands out two kinds of identifiers from two independent
//! wrapping counters: a `Token` for each pollable resource registered with the
//! poller, and a `Context` for each logical session. It keeps two tables:
//! token -> context, and context -> the session's state. Lookups tolerate a
//! miss on either side: a stale token or a removed state is simply absent.

use std::collections::HashMap;
use vstd::prelude::*;

verus! {

broadcast use vstd::std_specs::hash::group_hash_axioms;

/// Identifier of a pollable resource registered with the poller.
#[derive(Clone, Copy, Debug, PartialEq, Eq, Hash, Structural)]
pub struct Token(pub usize);

/// Identifier of one logical session.
#[derive(Clone, Copy, Debug, PartialEq, Eq, Hash, Structural)]
pub struct Context(pub usize);

/// The number of distinct values an identifier counter can take.
pub open spec fn id_space() -> nat {
    usize::MAX as nat + 1
}

/// The value a counter holds after handing out the identifier `x`.
pub open spec fn next_id(x: usize) -> usize {
    if x == usize::MAX {
        0
    } else {
        (x + 1) as usize
    }
}

/// The identifier handed out by the `k`-th allocation (counting from 0) of a
/// counter that started at `start`.
pub open spec fn nth_id(start: usize, k: nat) -> usize
    decreases k,
{
    if k == 0 {
        start
    } else {
        next_id(nth_id(start, (k - 1) as nat))
    }
}

/// What a table holds under `k`, if anything.
pub open spec fn entry<V>(m: Map<usize, V>, k: usize) -> Option<V> {
    if m.contains_key(k) {
        Some(m[k])
    } else {
        None
    }
}

/// Two-stage lookup: the state of the session that `token` is bound to.
pub open spec fn lookup<S>(
    bindings: Map<usize, Context>,
    states: Map<usize, S>,
    token: usize,
) -> Option<S> {
    match entry(bindings, token) {
        Some(c) => entry(states, c.0),
        None => None,
    }
}

/// The reactor's registry, generic over what it stores for a session.
pub struct Core<S> {
    token_counter: usize,
    context_counter: usize,
    contexts: HashMap<usize, Context>,
    states: HashMap<usize, S>,
}

impl<S> Core<S> {
    /// The token the next call of `get_new_token` returns.
    pub closed spec fn next_token(&self) -> usize {
        self.token_counter
    }

    /// The context the next call of `get_new_context` returns.
    pub closed spec fn next_context(&self) -> usize {
        self.context_counter
    }

    /// Token -> session bindings, keyed by the token's number.
    pub closed spec fn bindings(&self) -> Map<usize, Context> {
        self.contexts@
    }

    /// Session -> state table, keyed by the context's number.
    pub closed spec fn states(&self) -> Map<usize, S> {
        self.states@
    }

    pub fn new() -> (r: Self)
        ensures
            r.next_token() == 0,
            r.next_context() == 0,
            r.bindings() == Map::<usize, Context>::empty(),
            r.states() == Map::<usize, S>::empty(),
    {
        Self::with_context_counter(0)
    }

    /// Construct a registry whose contexts start from `context_counter`, so
    /// that the contexts below it can be reserved before the registry exists.
    pub fn with_context_counter(context_counter: usize) -> (r: Self)
        ensures
            r.next_token() == 0,
            r.next_context() == context_counter,
            r.bindings() == Map::<usize, Context>::empty(),
            r.states() == Map::<usize, S>::empty(),
    {
        Core {
            token_counter: 0,
            context_counter: context_counter,
            contexts: HashMap::new(),
            states: HashMap::new(),
        }
    }

    /// Hand out the next token; the counter wraps silently on overflow.
    pub fn get_new_token(&mut self) -> (r: Token)
        ensures
            r.0 == old(self).next_token(),
            final(self).next_token() == next_id(old(self).next_token()),
            final(self).next_context() == old(self).next_context(),
            final(self).bindings() == old(self).bindings(),
            final(self).states() == old(self).states(),
    {
        let next = Token(self.token_counter);
        self.token_counter = self.token_counter.wrapping_add(1);
        next
    }

    /// Hand out the next context; the counter wraps silently on overflow.
    pub fn get_new_context(&mut self) -> (r: Context)
        ensures
            r.0 == old(self).next_context(),
            final(self).next_context() == next_id(old(self).next_context()),
            final(self).next_token() == old(self).next_token(),
            final(self).bindings() == old(self).bindings(),
            final(self).states() == old(self).states(),
    {
        let next = Context(self.context_counter);
        self.context_counter = self.context_counter.wrapping_add(1);
        next
    }

    /// Bind `token` to `context`; returns the binding it replaced, if any.
    pub fn insert_context(&mut self, token: Token, context: Context) -> (r: Option<Context>)
        ensures
            r == entry(old(self).bindings(), token.0),
            final(self).bindings() == old(self).bindings().insert(token.0, context),
            final(self).states() == old(self).states(),
            final(self).next_token() == old(self).next_token(),
            final(self).next_context() == old(self).next_context(),
    {
        self.contexts.insert(token.0, context)
    }

    /// Install `state` for `context`; returns the state it replaced, if any,
    /// so that the caller can terminate it.
    pub fn insert_state(&mut self, context: Context, state: S) -> (r: Option<S>)
        ensures
            r == entry(old(self).states(), context.0),
            final(self).states() == old(self).states().insert(context.0, state),
            final(self).bindings() == old(self).bindings(),
            final(self).next_token() == old(self).next_token(),
            final(self).next_context() == old(self).next_context(),
    {
        self.states.insert(context.0, state)
    }

    /// Remove the binding of `token`; returns it, if there was one.
    pub fn remove_context(&mut self, token: Token) -> (r: Option<Context>)
        ensures
            r == entry(old(self).bindings(), token.0),
            final(self).bindings() == old(self).bindings().remove(token.0),
            final(self).states() == old(self).states(),
            final(self).next_token() == old(self).next_token(),
            final(self).next_context() == old(self).next_context(),
    {
        self.contexts.remove(&token.0)
    }

    /// Remove the state of `context`; returns it, if there was one.
    pub fn remove_state(&mut self, context: Context) -> (r: Option<S>)
        ensures
            r == entry(old(self).states(), context.0),
            final(self).states() == old(self).states().remove(context.0),
            final(self).bindings() == old(self).bindings(),
            final(self).next_token() == old(self).next_token(),
            final(self).next_context() == old(self).next_context(),
    {
        self.states.remove(&context.0)
    }

    /// The context `token` is bound to, if any.
    pub fn get_context(&self, token: Token) -> (r: Option<Context>)
        ensures
            r == entry(self.bindings(), token.0),
    {
        match self.contexts.get(&token.0) {
            Some(c) => Some(*c),
            None => None,
        }
    }

    /// The state installed for `context`, if any.
    pub fn get_state(&self, context: Context) -> (r: Option<&S>)
        ensures
            match r {
                Some(s) => entry(self.states(), context.0) == Some(*s),
                None => entry(self.states(), context.0) is None,
            },
    {
        self.states.get(&context.0)
    }

    /// The state that a readiness notification for `token` is dispatched to:
    /// token -> context -> state. A miss at either stage gives `None`, and
    /// the notification is then dropped.
    pub fn lookup_state(&self, token: Token) -> (r: Option<&S>)
        ensures
            match r {
                Some(s) => lookup(self.bindings(), self.states(), token.0) == Some(*s),
                None => lookup(self.bindings(), self.states(), token.0) is None,
            },
    {
        match self.get_context(token) {
            Some(c) => self.get_state(c),
            None => None,
        }
    }
}

/// Closed form of the counter: the `k`-th identifier is `start + k` modulo
/// the size of the identifier space.
pub proof fn lemma_nth_id_closed_form(start: usize, k: nat)
    ensures
        nth_id(start, k) as int == (start as int + k) % (id_space() as int),
    decreases k,
{
    let m = id_space() as int;
    if k == 0 {
        vstd::arithmetic::div_mod::lemma_small_mod(start as nat, m as nat);
    } else {
        lemma_nth_id_closed_form(start, (k - 1) as nat);
        let prev = (start as int + k - 1) % m;
        assert(prev == nth_id(start, (k - 1) as nat) as int);
        vstd::arithmetic::div_mod::lemma_add_mod_noop(start as int + k - 1, 1, m);
        vstd::arithmetic::div_mod::lemma_small_mod(1, m as nat);
        assert((start as int + k) % m == (prev + 1) % m);
        if prev + 1 < m {
            vstd::arithmetic::div_mod::lemma_small_mod((prev + 1) as nat, m as nat);
        } else {
            vstd::arithmetic::div_mod::lemma_mod_self_0(m);
        }
    }
}

/// Identifiers handed out by one counter are pairwise distinct until the
/// counter wraps: the `i`-th and the `j`-th differ whenever both fall within
/// one pass over the identifier space.
pub proof fn lemma_ids_distinct_until_wrap(start: usize, i: nat, j: nat)
    requires
        i < j,
        j < id_space(),
    ensures
        nth_id(start, i) != nth_id(start, j),
{
    lemma_nth_id_closed_form(start, i);
    lemma_nth_id_closed_form(start, j);
    let m = id_space() as int;
    let a = start as int + i;
    let b = start as int + j;
    if a % m == b % m {
        vstd::arithmetic::div_mod::lemma_fundamental_div_mod(a, m);
        vstd::arithmetic::div_mod::lemma_fundamental_div_mod(b, m);
        assert(0 <= b - a < m);
        vstd::arithmetic::div_mod::lemma_div_pos_is_pos(a, m);
        assert(a / m <= b / m) by {
            vstd::arithmetic::div_mod::lemma_div_is_ordered(a, b, m);
        }
        assert(b / m <= a / m + 1) by {
            vstd::arithmetic::div_mod::lemma_div_is_ordered(b, a + m, m);
            vstd::arithmetic::div_mod::lemma_div_plus_one(a, m);
        }
        if b / m == a / m + 1 {
            assert(b - a == m) by (nonlinear_arith)
                requires
                    a == m * (a / m) + a % m,
                    b == m * (b / m) + b % m,
                    a % m == b % m,
                    b / m == a / m + 1,
            ;
        } else {
            assert(b - a == 0) by (nonlinear_arith)
                requires
                    a == m * (a / m) + a % m,
                    b == m * (b / m) + b % m,
                    a % m == b % m,
                    b / m == a / m,
            ;
        }
    }
}

/// After a full pass over the identifier space the counter is back where it
/// started: an identifier handed out earlier is handed out again.
pub proof fn lemma_ids_repeat_after_wrap(start: usize)
    ensures
        nth_id(start, id_space()) == start,
{
    lemma_nth_id_closed_form(start, id_space());
    vstd::arithmetic::div_mod::lemma_mod_add_multiples_vanish(start as int, id_space() as int);
    vstd::arithmetic::div_mod::lemma_small_mod(start as nat, id_space());
}

/// Once `token` is unbound, a lookup through it finds nothing.
pub proof fn lemma_lookup_after_unbind<S>(
    bindings: Map<usize, Context>,
    states: Map<usize, S>,
    token: usize,
)
    ensures
        lookup(bindings.remove(token), states, token) is None,
{
}

/// Once the state of the session that `token` is bound to is detached, a
/// lookup through `token` finds nothing.
pub proof fn lemma_lookup_after_detach<S>(
    bindings: Map<usize, Context>,
    states: Map<usize, S>,
    token: usize,
    context: Context,
)
    requires
        entry(bindings, token) == Some(context),
    ensures
        lookup(bindings, states.remove(context.0), token) is None,
{
}

/// Attaching `b` to a session that already holds `a` hands `a` back.
pub proof fn lemma_attach_returns_previous<S>(states: Map<usize, S>, context: Context, a: S, b: S)
    ensures
        entry(states.insert(context.0, a), context.0) == Some(a),
        states.insert(context.0, a).insert(context.0, b)[context.0] == b,
{
}

} // verus!
