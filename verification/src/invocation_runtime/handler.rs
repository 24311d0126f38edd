//! In-process handlers and the registry that maps operations to them.
use vstd::prelude::*;

use crate::fields::PublicFields;
use crate::invocation::KernelInvocationEnvelope;
use crate::route_runtime::KernelRouteRuntimeOutput;
use crate::text::{chars_eq_str, chars_of, owned};

verus! {

/// What a handler returns: a summary, the kind of result, and public fields.
#[derive(Debug, Clone, PartialEq, Eq)]
pub struct KernelHandlerResult {
    pub summary: String,
    pub result_kind: Option<String>,
    pub public_fields: PublicFields,
}

impl KernelHandlerResult {
    /// A plain summary result, of kind `summary`, with no public fields.
    pub fn summary(summary: &str) -> (r: Self)
        ensures
            r.summary@ == summary@,
            r.result_kind matches Some(k) && k@ == "summary"@,
            r.public_fields@ == Map::<Seq<char>, Seq<char>>::empty(),
    {
        KernelHandlerResult { summary: owned(summary), result_kind: Some(owned("summary")), public_fields: PublicFields::new() }
    }

    /// A structured result of kind `result_kind` with its public fields.
    pub fn structured(result_kind: &str, public_fields: PublicFields, summary: &str) -> (r: Self)
        ensures
            r.summary@ == summary@,
            r.result_kind matches Some(k) && k@ == result_kind@,
            r.public_fields == public_fields,
    {
        KernelHandlerResult { summary: owned(summary), result_kind: Some(owned(result_kind)), public_fields }
    }
}

/// Why a handler failed.
#[derive(Debug, Clone, PartialEq, Eq)]
pub struct KernelHandlerError {
    pub message: String,
}

impl KernelHandlerError {
    /// A handler error with `message`.
    pub fn new(message: &str) -> (r: Self)
        ensures
            r.message@ == message@,
    {
        KernelHandlerError { message: owned(message) }
    }

    /// The text shown for this error: its message.
    pub fn to_string(&self) -> (r: String)
        ensures
            r@ == self.message@,
    {
        self.message.clone()
    }
}

/// An in-process handler for an operation. Users implement it (any suitable
/// closure does). `accepts` says on which envelope and route it may be
/// called, `handles` which results it can give for them.
pub trait KernelHandler: Send + Sync {
    /// Whether the handler may be called with `envelope` and `route`.
    spec fn accepts(&self, envelope: KernelInvocationEnvelope, route: KernelRouteRuntimeOutput) -> bool;

    /// Whether `result` is a result the handler can give for `envelope` and `route`.
    spec fn handles(
        &self,
        envelope: KernelInvocationEnvelope,
        route: KernelRouteRuntimeOutput,
        result: Result<KernelHandlerResult, KernelHandlerError>,
    ) -> bool;

    /// Handles `envelope`, routed to `route`.
    fn handle(&self, envelope: &KernelInvocationEnvelope, route: &KernelRouteRuntimeOutput) -> (r: Result<KernelHandlerResult, KernelHandlerError>)
        requires
            self.accepts(*envelope, *route),
        ensures
            self.handles(*envelope, *route, r),
    ;
}

impl<F> KernelHandler for F
    where F: Fn(&KernelInvocationEnvelope, &KernelRouteRuntimeOutput) -> Result<KernelHandlerResult, KernelHandlerError> + Send + Sync,
{
    /// A closure may be called where its own precondition holds.
    open spec fn accepts(&self, envelope: KernelInvocationEnvelope, route: KernelRouteRuntimeOutput) -> bool {
        call_requires(*self, (&envelope, &route))
    }

    /// A closure gives the results its own postcondition allows.
    open spec fn handles(
        &self,
        envelope: KernelInvocationEnvelope,
        route: KernelRouteRuntimeOutput,
        result: Result<KernelHandlerResult, KernelHandlerError>,
    ) -> bool {
        call_ensures(*self, (&envelope, &route), result)
    }

    /// Calls the closure with the envelope and the route and returns what it returns.
    fn handle(&self, envelope: &KernelInvocationEnvelope, route: &KernelRouteRuntimeOutput) -> (r: Result<KernelHandlerResult, KernelHandlerError>) {
        (self)(envelope, route)
    }
}

/// The handlers by operation: at most one for each operation.
pub struct KernelHandlerRegistry {
    handlers: Vec<(String, Box<dyn KernelHandler>)>,
}

/// The operation names of registry entries, in order.
pub open spec fn entry_names(es: Seq<(String, Box<dyn KernelHandler>)>) -> Seq<Seq<char>> {
    es.map_values(|e: (String, Box<dyn KernelHandler>)| e.0@)
}

impl KernelHandlerRegistry {
    #[verifier::type_invariant]
    spec fn one_handler_per_operation(self) -> bool {
        &&& entry_names(self.handlers@).no_duplicates()
        &&& forall|i: int, e: KernelInvocationEnvelope, r: KernelRouteRuntimeOutput|
            0 <= i < self.handlers@.len() ==> #[trigger] self.handlers@[i].1.accepts(e, r)
    }

    /// The operations that have a handler, in order of first registration.
    pub closed spec fn operations(&self) -> Seq<Seq<char>> {
        entry_names(self.handlers@)
    }

    /// The registered entries: each operation with its handler, in order of
    /// first registration.
    pub closed spec fn entries(&self) -> Seq<(String, Box<dyn KernelHandler>)> {
        self.handlers@
    }

    /// The position of `operation`'s entry (meaningful where it has one).
    pub closed spec fn handler_index(&self, operation: Seq<char>) -> int {
        choose|i: int| 0 <= i < self.handlers@.len() && self.handlers@[i].0@ == operation
    }

    /// Whether `operation`'s handler may be called with `envelope` and `route`.
    pub open spec fn handler_accepts(&self, operation: Seq<char>, envelope: KernelInvocationEnvelope, route: KernelRouteRuntimeOutput) -> bool {
        self.entries()[self.handler_index(operation)].1.accepts(envelope, route)
    }

    /// Whether `result` is a result `operation`'s handler can give for `envelope` and `route`.
    pub open spec fn handler_handles(
        &self,
        operation: Seq<char>,
        envelope: KernelInvocationEnvelope,
        route: KernelRouteRuntimeOutput,
        result: Result<KernelHandlerResult, KernelHandlerError>,
    ) -> bool {
        self.entries()[self.handler_index(operation)].1.handles(envelope, route, result)
    }

    /// Where the names have no duplicates, the handler of the name at `i` is the one at `i`.
    proof fn lemma_handler_at(&self, i: int)
        requires
            entry_names(self.handlers@).no_duplicates(),
            0 <= i < self.handlers@.len(),
        ensures
            self.handler_index(self.handlers@[i].0@) == i,
    {
        let op = self.handlers@[i].0@;
        assert(entry_names(self.handlers@)[i] == op);
        assert(0 <= i < self.handlers@.len() && self.handlers@[i].0@ == op);
        let j = self.handler_index(op);
        assert(0 <= j < self.handlers@.len() && self.handlers@[j].0@ == op);
        assert(entry_names(self.handlers@)[j] == op);
    }

    /// Where `self` keeps every entry of `before` not named `operation` at
    /// its place, the handlers of the other operations stay the same.
    proof fn lemma_keeps_others(&self, before: Self, operation: Seq<char>)
        requires
            entry_names(self.handlers@).no_duplicates(),
            entry_names(before.handlers@).no_duplicates(),
            before.handlers@.len() <= self.handlers@.len(),
            forall|j: int| 0 <= j < before.handlers@.len() && before.handlers@[j].0@ != operation
                ==> #[trigger] self.handlers@[j] == before.handlers@[j],
        ensures
            forall|x: Seq<char>| x != operation && #[trigger] before.operations().contains(x)
                ==> self.entries()[self.handler_index(x)].1 == before.entries()[before.handler_index(x)].1,
    {
        assert forall|x: Seq<char>| x != operation && #[trigger] before.operations().contains(x)
            implies self.entries()[self.handler_index(x)].1 == before.entries()[before.handler_index(x)].1 by {
            let k = choose|k: int| 0 <= k < before.operations().len() && before.operations()[k] == x;
            assert(before.handlers@[k].0@ == x);
            assert(self.handlers@[k] == before.handlers@[k]);
            before.lemma_handler_at(k);
            self.lemma_handler_at(k);
        }
    }

    /// A registry with no handlers.
    pub fn new() -> (r: Self)
        ensures
            r.operations() == Seq::<Seq<char>>::empty(),
    {
        let r = KernelHandlerRegistry { handlers: Vec::new() };
        assert(entry_names(r.handlers@) =~= Seq::<Seq<char>>::empty());
        r
    }

    /// The position of `operation`'s handler, if it has one.
    fn position(&self, operation: &str) -> (r: Option<usize>)
        ensures
            match r {
                Some(i) => i < self.operations().len() && self.operations()[i as int] == operation@,
                None => !self.operations().contains(operation@),
            },
    {
        let mut i: usize = 0;
        while i < self.handlers.len()
            invariant
                i <= self.handlers.len(),
                forall|j: int| 0 <= j < i ==> entry_names(self.handlers@)[j] != operation@,
            decreases self.handlers.len() - i,
        {
            if chars_eq_str(&chars_of(self.handlers[i].0.as_str()), operation) {
                return Some(i);
            }
            i = i + 1;
        }
        None
    }

    /// Registers `handler` for `operation`, replacing any earlier one.
    pub fn register(&mut self, operation: &str, handler: Box<dyn KernelHandler>)
        requires
            forall|e: KernelInvocationEnvelope, r: KernelRouteRuntimeOutput| #[trigger] handler.accepts(e, r),
        ensures
            old(self).operations().contains(operation@) ==> final(self).operations() == old(self).operations(),
            !old(self).operations().contains(operation@) ==> final(self).operations() == old(self).operations().push(operation@),
            final(self).operations().contains(operation@),
            forall|e: KernelInvocationEnvelope, rt: KernelRouteRuntimeOutput, res: Result<KernelHandlerResult, KernelHandlerError>|
                #[trigger] final(self).handler_handles(operation@, e, rt, res) == handler.handles(e, rt, res),
            forall|x: Seq<char>| x != operation@ && #[trigger] old(self).operations().contains(x)
                ==> final(self).entries()[final(self).handler_index(x)].1 == old(self).entries()[old(self).handler_index(x)].1,
    {
        proof { use_type_invariant(&*self); }
        let ghost before = *self;
        let found = self.position(operation);
        let ghost old_es = self.handlers@;
        match found {
            Some(i) => {
                let mut entries = Vec::new();
                std::mem::swap(&mut entries, &mut self.handlers);
                assert(entries@ == old_es);
                let name = owned(operation);
                assert(name@ == operation@);
                let pair = (name, handler);
                assert(pair.0@ == operation@);
                entries.set(i, pair);
                assert(entries@[i as int] == pair);
                proof {
                    assert(entries@[i as int].0@ == operation@);
                    assert(entry_names(entries@) =~= entry_names(old_es));
                }
                self.handlers = entries;
                proof {
                    assert(self.operations()[i as int] == operation@);
                    self.lemma_handler_at(i as int);
                    self.lemma_keeps_others(before, operation@);
                }
            },
            None => {
                let mut entries = Vec::new();
                std::mem::swap(&mut entries, &mut self.handlers);
                let name = owned(operation);
                let pair = (name, handler);
                assert(pair.0@ == operation@);
                entries.push(pair);
                proof {
                    assert(entries@[old_es.len() as int] == pair);
                    assert(entries@[old_es.len() as int].0@ == operation@);
                    assert(entry_names(entries@) =~= entry_names(old_es).push(operation@));
                }
                self.handlers = entries;
                proof {
                    assert(self.operations()[old_es.len() as int] == operation@);
                    self.lemma_handler_at(old_es.len() as int);
                    self.lemma_keeps_others(before, operation@);
                }
            },
        }
    }

    /// The same registry with `handler` registered for `operation`.
    pub fn with_handler(self, operation: &str, handler: Box<dyn KernelHandler>) -> (r: Self)
        requires
            forall|e: KernelInvocationEnvelope, r: KernelRouteRuntimeOutput| #[trigger] handler.accepts(e, r),
        ensures
            self.operations().contains(operation@) ==> r.operations() == self.operations(),
            !self.operations().contains(operation@) ==> r.operations() == self.operations().push(operation@),
            forall|e: KernelInvocationEnvelope, rt: KernelRouteRuntimeOutput, res: Result<KernelHandlerResult, KernelHandlerError>|
                #[trigger] r.handler_handles(operation@, e, rt, res) == handler.handles(e, rt, res),
            forall|x: Seq<char>| x != operation@ && #[trigger] self.operations().contains(x)
                ==> r.entries()[r.handler_index(x)].1 == self.entries()[self.handler_index(x)].1,
    {
        let mut reg = self;
        reg.register(operation, handler);
        reg
    }

    /// The handler registered for `operation`, if any.
    pub fn get(&self, operation: &str) -> (r: Option<&Box<dyn KernelHandler>>)
        ensures
            r is Some <==> self.operations().contains(operation@),
            r matches Some(h) ==> *h == self.entries()[self.handler_index(operation@)].1
                && (forall|e: KernelInvocationEnvelope, rt: KernelRouteRuntimeOutput| #[trigger] h.accepts(e, rt))
                && (forall|e: KernelInvocationEnvelope, rt: KernelRouteRuntimeOutput, res: Result<KernelHandlerResult, KernelHandlerError>|
                    #[trigger] h.handles(e, rt, res) == self.handler_handles(operation@, e, rt, res)),
    {
        proof { use_type_invariant(self); }
        match self.position(operation) {
            Some(i) => {
                proof {
                    assert(self.operations()[i as int] == operation@);
                    self.lemma_handler_at(i as int);
                    assert forall|e: KernelInvocationEnvelope, rt: KernelRouteRuntimeOutput|
                        #[trigger] self.handlers@[i as int].1.accepts(e, rt) by {}
                }
                Some(&self.handlers[i].1)
            },
            None => None,
        }
    }
}

impl Default for KernelHandlerRegistry {
    fn default() -> (r: Self)
        ensures
            r.operations() == Seq::<Seq<char>>::empty(),
    {
        KernelHandlerRegistry::new()
    }
}

} // verus!
